//! Deleting an application and the files it left behind: which files are
//! related, how they are offered, and what each deletion does.
use vstd::prelude::*;
use crate::cli::DeleteArgs;
use crate::path::{extension, file_name, join, last_index_of, path_extension, path_file_name, path_join};
use crate::text::{sort_texts, strs_view, texts_sorted, contains_seq, contains_str, has_prefix, owned, push_char, starts_with_str, str_eq, substring};
use crate::utils::system::regex_compiles;

verus! {

/// Whether `regex` treats `c` as a meta character (`regex_syntax::is_meta_character`).
pub open spec fn is_meta_char(c: char) -> bool {
    c == '\\' || c == '.' || c == '+' || c == '*' || c == '?' || c == '(' || c == ')' || c == '|' || c == '['
        || c == ']' || c == '{' || c == '}' || c == '^' || c == '$' || c == '#' || c == '&' || c == '-'
        || c == '~'
}

/// `text` with a backslash before every meta character.
pub open spec fn escaped(text: Seq<char>) -> Seq<char>
    decreases text.len(),
{
    if text.len() == 0 {
        seq![]
    } else {
        let c = text.last();
        escaped(text.drop_last()) + if is_meta_char(c) {
            seq!['\\', c]
        } else {
            seq![c]
        }
    }
}

/// `text` with a backslash before every meta character, as
/// `regex::escape` writes it.
fn regex_escape(text: &str) -> (r: String)
    ensures
        r@ == escaped(text@),
{
    let n = text.unicode_len();
    let mut r = String::new();
    let mut i: usize = 0;
    while i < n
        invariant
            n == text@.len(),
            i <= n,
            r@ == escaped(text@.take(i as int)),
        decreases n - i,
    {
        let c = text.get_char(i);
        proof {
            assert(text@.take(i + 1).drop_last() =~= text@.take(i as int));
            assert(text@.take(i + 1).last() == c);
        }
        let ghost before = r@;
        if c == '\\' || c == '.' || c == '+' || c == '*' || c == '?' || c == '(' || c == ')' || c == '|' || c == '['
            || c == ']' || c == '{' || c == '}' || c == '^' || c == '$' || c == '#' || c == '&' || c == '-'
            || c == '~' {
            push_char(&mut r, '\\');
        }
        push_char(&mut r, c);
        proof {
            if is_meta_char(c) {
                assert(r@ =~= before + seq!['\\', c]);
            } else {
                assert(r@ =~= before + seq![c]);
            }
        }
        i += 1;
    }
    proof {
        assert(text@.take(n as int) =~= text@);
    }
    r
}

/// What `str::to_lowercase` gives for `s`.
pub uninterp spec fn lowercase(s: Seq<char>) -> Seq<char>;

/// Calls `str::to_lowercase`; the contract claims only that the result is
/// [`lowercase`] of the argument, a function of the text alone.
#[verifier::external_body]
fn to_lowercase(s: &str) -> (r: String)
    ensures
        r@ == lowercase(s@),
{
    s.to_lowercase()
}

/// Whether the expression `pattern` matches somewhere in `text`
/// (`Regex::is_match`).
pub uninterp spec fn regex_matches(pattern: Seq<char>, text: Seq<char>) -> bool;

/// `regex::Regex::new(pattern)`, then `is_match(text)` on the compiled
/// expression; `None` exactly when the crate refuses the pattern.
#[verifier::external_body]
fn regex_is_match(pattern: &str, text: &str) -> (r: Option<bool>)
    ensures
        r is Some <==> regex_compiles(pattern@),
        r matches Some(b) ==> b == regex_matches(pattern@, text@),
{
    match regex::Regex::new(pattern) {
        Ok(re) => Some(re.is_match(text)),
        Err(_) => None,
    }
}

/// The case-insensitive expression that matches `name` literally.
pub open spec fn name_pattern(name: Seq<char>) -> Seq<char> {
    "(?i)"@ + escaped(name)
}

/// Whether a file name is related to the application: it contains the
/// application's lowercased name, or its bundle identifier, ignoring case.
pub open spec fn related_name(file: Seq<char>, app_name: Seq<char>, bundle_id: Option<Seq<char>>) -> bool {
    let by_name = name_pattern(lowercase(app_name));
    ||| regex_compiles(by_name) && regex_matches(by_name, file)
    ||| (bundle_id matches Some(b) && regex_compiles(name_pattern(b)) && regex_matches(name_pattern(b), file))
}

fn matches_literally(name: &str, file: &str) -> (r: bool)
    ensures
        r == (regex_compiles(name_pattern(name@)) && regex_matches(name_pattern(name@), file@)),
{
    let mut pattern = owned("(?i)");
    pattern.append(regex_escape(name).as_str());
    match regex_is_match(pattern.as_str(), file) {
        Some(b) => b,
        None => false,
    }
}

/// Whether a file name is related to the application (see [`related_name`]).
pub fn is_related_name(file: &str, app_name: &str, bundle_id: Option<&str>) -> (r: bool)
    ensures
        r == related_name(file@, app_name@, match bundle_id { Some(b) => Some(b@), None => None }),
{
    let lower = to_lowercase(app_name);
    if matches_literally(lower.as_str(), file) {
        return true;
    }
    match bundle_id {
        Some(b) => matches_literally(b, file),
        None => false,
    }
}

/// The `CFBundleIdentifier` string of the property list in `bytes`, as the
/// `plist` crate reads it: `None` when the bytes are no property list, when it
/// is not a dictionary, or when that key is missing or holds no string.
pub uninterp spec fn plist_bundle_identifier(bytes: Seq<u8>) -> Option<Seq<char>>;

/// `plist::Value::from_reader` on the bytes, then `as_dictionary`, `get` of
/// `"CFBundleIdentifier"` and `as_string`. The contract says only that the
/// result is [`plist_bundle_identifier`] of the bytes.
#[verifier::external_body]
fn bundle_identifier_of(bytes: &[u8]) -> (r: Option<String>)
    ensures
        r.deep_view() == plist_bundle_identifier(bytes@),
{
    let value = plist::Value::from_reader(std::io::Cursor::new(bytes)).ok()?;
    value.as_dictionary()?.get("CFBundleIdentifier")?.as_string().map(String::from)
}

/// The bundle identifier of an application, given the bytes of its
/// `Contents/Info.plist`, or `None` where the file could not be read.
pub fn get_bundle_identifier(info_plist: &Option<Vec<u8>>) -> (r: Option<String>)
    ensures
        r.deep_view() == match info_plist {
            Some(bytes) => plist_bundle_identifier(bytes@),
            None => None,
        },
{
    match info_plist {
        Some(bytes) => bundle_identifier_of(bytes.as_slice()),
        None => None,
    }
}

/// Whether a found entry is offered for deletion: a related name, and a
/// directory in an application directory or a `.plist` file elsewhere.
pub open spec fn offered_spec(related: bool, is_app_dir: bool, is_dir: bool, path: Seq<char>) -> bool {
    related && ((is_app_dir && is_dir) || (!is_app_dir && extension(path) == Some("plist"@)))
}

/// Whether a found entry is offered for deletion (see [`offered_spec`]).
pub fn is_offered(related: bool, is_app_dir: bool, is_dir: bool, path: &str) -> (r: bool)
    ensures
        r == offered_spec(related, is_app_dir, is_dir, path@),
{
    proof {
        reveal_strlit("plist");
    }
    if !related {
        return false;
    }
    if is_app_dir && is_dir {
        return true;
    }
    if is_app_dir {
        return false;
    }
    match path_extension(path) {
        Some(e) => str_eq(e.as_str(), "plist"),
        None => false,
    }
}

/// The directories searched, with whether each holds application
/// directories (else preference files): the user's data and cache
/// directories and logs, the user's preferences; then the system's.
pub open spec fn search_dirs_spec(home: Seq<char>, data: Seq<char>, cache: Seq<char>) -> (Seq<(Seq<char>, bool)>, Seq<
    (Seq<char>, bool),
>) {
    (
        seq![
            (data, true),
            (cache, true),
            (path_join(home, "Library/Logs"@), true),
            (path_join(home, "Library/Preferences"@), false),
        ],
        seq![
            ("/Library/Application Support"@, true),
            ("/Library/Caches"@, true),
            ("/Library/Preferences"@, false),
        ],
    )
}

/// The user and system directories searched (see [`search_dirs_spec`]).
pub fn search_dirs(home: &str, data: &str, cache: &str) -> (r: (Vec<(String, bool)>, Vec<(String, bool)>))
    ensures
        r.0@.map_values(|p: (String, bool)| (p.0@, p.1)) == search_dirs_spec(home@, data@, cache@).0,
        r.1@.map_values(|p: (String, bool)| (p.0@, p.1)) == search_dirs_spec(home@, data@, cache@).1,
{
    let user = vec![
        (owned(data), true),
        (owned(cache), true),
        (join(home, "Library/Logs"), true),
        (join(home, "Library/Preferences"), false),
    ];
    let system = vec![
        (owned("/Library/Application Support"), true),
        (owned("/Library/Caches"), true),
        (owned("/Library/Preferences"), false),
    ];
    proof {
        assert(user@.map_values(|p: (String, bool)| (p.0@, p.1)) =~= search_dirs_spec(home@, data@, cache@).0);
        assert(system@.map_values(|p: (String, bool)| (p.0@, p.1)) =~= search_dirs_spec(home@, data@, cache@).1);
    }
    (user, system)
}

/// The bundle of an application in `/Applications`.
pub fn app_bundle_path(app_name: &str) -> (r: String)
    ensures
        r@ == "/Applications/"@ + app_name@ + ".app"@,
{
    let mut s = owned("/Applications/");
    s.append(app_name);
    s.append(".app");
    s
}

/// The application named by an entry of `/Applications`: the file name
/// without its `.app` extension, for entries with that extension.
pub open spec fn app_name_of(path: Seq<char>) -> Option<Seq<char>> {
    match (file_name(path), extension(path)) {
        (Some(n), Some(e)) => if e == "app"@ {
            match last_index_of(n, '.') {
                Some(i) => Some(n.subrange(0, i)),
                None => None,
            }
        } else {
            None
        },
        _ => None,
    }
}

/// The application named by an entry of `/Applications` (see [`app_name_of`]).
pub fn app_name_of_entry(path: &str) -> (r: Option<String>)
    ensures
        match (r, app_name_of(path@)) {
            (Some(a), Some(b)) => a@ == b,
            (None, None) => true,
            _ => false,
        },
{
    proof {
        reveal_strlit("app");
    }
    match (path_file_name(path), path_extension(path)) {
        (Some(n), Some(e)) => {
            if str_eq(e.as_str(), "app") {
                match crate::path::find_last(n.as_str(), '.') {
                    Some(i) => Some(substring(n.as_str(), 0, i)),
                    None => None,
                }
            } else {
                None
            }
        },
        _ => None,
    }
}

/// Whether `brew list --cask` printed the application: its output contains
/// the application's name, both lowercased.
pub fn is_homebrew_listing(brew_output: &str, app_name: &str) -> (r: bool)
    ensures
        r == contains_seq(lowercase(brew_output@), lowercase(app_name@)),
{
    contains_str(to_lowercase(brew_output).as_str(), to_lowercase(app_name).as_str())
}

/// The option offered for the `index`-th related file.
pub open spec fn option_label(index: nat, path: Seq<char>, is_system: bool) -> Seq<char> {
    (if is_system { "[SYSTEM] "@ } else { "[USER] "@ }) + crate::text::decimal(index) + ": "@ + path
}

/// The options offered: the user files, then the system files, numbered in
/// that order; a file counts as a system file when it is among them.
pub open spec fn options_spec(user: Seq<Seq<char>>, system: Seq<Seq<char>>) -> Seq<Seq<char>> {
    let all = user + system;
    Seq::new(all.len(), |i: int| option_label(i as nat, all[i], system.contains(all[i])))
}

fn contains_path(v: &Vec<String>, p: &str) -> (r: bool)
    ensures
        r == crate::path::views(v@).contains(p@),
{
    let mut i: usize = 0;
    while i < v.len()
        invariant
            i <= v.len(),
            forall|j: int| 0 <= j < i ==> v@[j]@ != p@,
        decreases v.len() - i,
    {
        if str_eq(v[i].as_str(), p) {
            proof {
                assert(crate::path::views(v@)[i as int] == p@);
            }
            return true;
        }
        i = i + 1;
    }
    proof {
        if crate::path::views(v@).contains(p@) {
            let j = choose|j: int| 0 <= j < crate::path::views(v@).len() && crate::path::views(v@)[j] == p@;
            assert(v@[j]@ == p@);
        }
    }
    false
}

/// The options offered for the related files (see [`options_spec`]).
pub fn selection_options(user: &Vec<String>, system: &Vec<String>) -> (r: Vec<String>)
    requires
        user@.len() + system@.len() <= usize::MAX,
    ensures
        crate::path::views(r@) == options_spec(crate::path::views(user@), crate::path::views(system@)),
{
    let ghost all = crate::path::views(user@) + crate::path::views(system@);
    let n = user.len() + system.len();
    let mut r: Vec<String> = Vec::new();
    let mut i: usize = 0;
    while i < n
        invariant
            n == user@.len() + system@.len(),
            all == crate::path::views(user@) + crate::path::views(system@),
            i <= n,
            crate::path::views(r@) == Seq::new(
                i as nat,
                |k: int| option_label(k as nat, all[k], crate::path::views(system@).contains(all[k])),
            ),
        decreases n - i,
    {
        let p = if i < user.len() {
            user[i].as_str()
        } else {
            system[i - user.len()].as_str()
        };
        proof {
            assert(all[i as int] == p@);
        }
        let is_system = contains_path(system, p);
        let mut s = if is_system {
            owned("[SYSTEM] ")
        } else {
            owned("[USER] ")
        };
        s.append(crate::text::to_decimal(i as u128).as_str());
        s.append(": ");
        s.append(p);
        proof {
            assert(s@ =~= option_label(i as nat, all[i as int], crate::path::views(system@).contains(all[i as int])));
        }
        let ghost before = r@;
        r.push(s);
        proof {
            assert(crate::path::views(r@) =~= crate::path::views(before).push(s@));
            assert(crate::path::views(r@) =~= Seq::new(
                (i + 1) as nat,
                |k: int| option_label(k as nat, all[k], crate::path::views(system@).contains(all[k])),
            ));
        }
        i = i + 1;
    }
    r
}

/// The index of the first `:` in `s`, if any.
pub open spec fn first_colon(s: Seq<char>) -> Option<int>
    decreases s.len(),
{
    if s.len() == 0 {
        None
    } else if s[0] == ':' {
        Some(0)
    } else {
        match first_colon(s.drop_first()) {
            Some(i) => Some(i + 1),
            None => None,
        }
    }
}

/// The option text without its `[SYSTEM] ` or `[USER] ` prefix.
pub open spec fn option_body(item: Seq<char>) -> Seq<char> {
    if has_prefix(item, "[SYSTEM] "@) {
        item.subrange(9, item.len() as int)
    } else {
        item.subrange(7, item.len() as int)
    }
}

/// The path of a selected option: what follows its `[SYSTEM] ` or `[USER] `
/// prefix and its `N: ` number (an option without a number is taken whole).
pub open spec fn selected_path_spec(item: Seq<char>) -> Seq<char> {
    let body = option_body(item);
    match first_colon(body) {
        Some(i) => if i + 2 <= body.len() {
            body.subrange(i + 2, body.len() as int)
        } else {
            Seq::empty()
        },
        None => body,
    }
}

/// The decimal digits hold no `:`.
proof fn lemma_decimal_no_colon(n: nat)
    ensures
        first_colon(crate::text::decimal(n)) is None,
        forall|i: int| 0 <= i < crate::text::decimal(n).len() ==> crate::text::decimal(n)[i] != ':',
    decreases n,
{
    let d = crate::text::decimal(n);
    if n >= 10 {
        lemma_decimal_no_colon(n / 10);
    }
    assert forall|i: int| 0 <= i < d.len() implies d[i] != ':' by {
        if n >= 10 {
            let p = crate::text::decimal(n / 10);
            if i < p.len() {
                assert(d[i] == p[i]);
            }
        }
    }
    lemma_no_colon(d);
}

/// A text with no `:` has no first colon.
proof fn lemma_no_colon(s: Seq<char>)
    requires
        forall|i: int| 0 <= i < s.len() ==> s[i] != ':',
    ensures
        first_colon(s) is None,
    decreases s.len(),
{
    if s.len() > 0 {
        assert forall|i: int| 0 <= i < s.drop_first().len() implies s.drop_first()[i] != ':' by {
            assert(s.drop_first()[i] == s[i + 1]);
        }
        lemma_no_colon(s.drop_first());
    }
}

/// The first colon of `a + b`, where `a` holds none, is the first colon of `b`.
proof fn lemma_first_colon_after(a: Seq<char>, b: Seq<char>)
    requires
        forall|i: int| 0 <= i < a.len() ==> a[i] != ':',
    ensures
        first_colon(a + b) == match first_colon(b) {
            Some(i) => Some(i + a.len()),
            None => None::<int>,
        },
    decreases a.len(),
{
    if a.len() > 0 {
        assert((a + b).drop_first() =~= a.drop_first() + b);
        assert forall|i: int| 0 <= i < a.drop_first().len() implies a.drop_first()[i] != ':' by {
            assert(a.drop_first()[i] == a[i + 1]);
        }
        lemma_first_colon_after(a.drop_first(), b);
        assert((a + b)[0] == a[0]);
    } else {
        assert(a + b =~= b);
    }
}

/// Each offered option gives back the path it was made for.
pub proof fn law_selected_path_of_option(index: nat, path: Seq<char>, is_system: bool)
    ensures
        selected_path_spec(option_label(index, path, is_system)) == path,
        has_prefix(option_label(index, path, is_system), "[SYSTEM] "@) || has_prefix(
            option_label(index, path, is_system),
            "[USER] "@,
        ),
{
    reveal_strlit("[SYSTEM] ");
    reveal_strlit("[USER] ");
    reveal_strlit(": ");
    let d = crate::text::decimal(index);
    let label = option_label(index, path, is_system);
    let prefix = if is_system { "[SYSTEM] "@ } else { "[USER] "@ };
    let body = d + ": "@ + path;
    assert(label =~= prefix + body);
    assert(label.subrange(0, prefix.len() as int) =~= prefix);
    assert(label.subrange(prefix.len() as int, label.len() as int) =~= body);
    if !is_system {
        assert(label[1] == 'U');
        assert(!has_prefix(label, "[SYSTEM] "@)) by {
            assert("[SYSTEM] "@[1] == 'S');
        }
    }
    assert(option_body(label) == body);
    lemma_decimal_no_colon(index);
    lemma_first_colon_after(d, ": "@ + path);
    assert((": "@ + path)[0] == ':');
    assert(first_colon(": "@ + path) == Some(0int));
    assert(body =~= d + (": "@ + path));
    assert(body.subrange(d.len() as int + 2, body.len() as int) =~= path);
}

/// The path of a selected option (see [`selected_path_spec`]).
pub fn selected_path(item: &str) -> (r: String)
    requires
        has_prefix(item@, "[SYSTEM] "@) || has_prefix(item@, "[USER] "@),
    ensures
        r@ == selected_path_spec(item@),
{
    proof {
        reveal_strlit("[SYSTEM] ");
        reveal_strlit("[USER] ");
    }
    let n = item.unicode_len();
    let start: usize = if starts_with_str(item, "[SYSTEM] ") { 9 } else { 7 };
    let ghost body = option_body(item@);
    proof {
        assert(body =~= item@.subrange(start as int, n as int));
        assert(body.subrange(0, body.len() as int) =~= body);
    }
    let mut i: usize = start;
    while i < n
        invariant
            start <= i <= n,
            n == item@.len(),
            body == item@.subrange(start as int, n as int),
            body == option_body(item@),
            first_colon(body) == match first_colon(body.subrange((i - start) as int, body.len() as int)) {
                Some(k) => Some(k + (i - start)),
                None => None::<int>,
            },
        decreases n - i,
    {
        if item.get_char(i) == ':' {
            proof {
                let rest = body.subrange((i - start) as int, body.len() as int);
                assert(rest[0] == ':');
                assert(first_colon(body) == Some((i - start) as int));
            }
            if n - i >= 2 {
                proof {
                    assert(body.subrange((i - start) as int + 2, body.len() as int) =~= item@.subrange(i + 2, n as int));
                }
                return substring(item, i + 2, n);
            } else {
                return String::new();
            }
        }
        proof {
            let rest = body.subrange((i - start) as int, body.len() as int);
            assert(rest.drop_first() =~= body.subrange((i + 1 - start) as int, body.len() as int));
        }
        i = i + 1;
    }
    proof {
        assert(body.subrange((n - start) as int, body.len() as int) =~= Seq::<char>::empty());
    }
    substring(item, start, n)
}

/// The selected files split into user files and system files, each in
/// the order selected; a path counts as a system file when it is among the
/// system files found.
pub open spec fn split_selection_spec(paths: Seq<Seq<char>>, system: Seq<Seq<char>>, n: nat) -> (Seq<Seq<char>>, Seq<
    Seq<char>,
>)
    decreases n,
{
    if n == 0 {
        (seq![], seq![])
    } else {
        let (u, s) = split_selection_spec(paths, system, (n - 1) as nat);
        if system.contains(paths[n - 1]) {
            (u, s.push(paths[n - 1]))
        } else {
            (u.push(paths[n - 1]), s)
        }
    }
}

/// Every selected path lands on exactly one side: with the system files
/// when it is one of the system files found, with the user files otherwise,
/// and nothing else is on either side.
pub proof fn law_split_selection(paths: Seq<Seq<char>>, system: Seq<Seq<char>>, n: nat)
    requires
        n <= paths.len(),
    ensures
        ({
            let (u, s) = split_selection_spec(paths, system, n);
            &&& u.len() + s.len() == n
            &&& forall|k: int| 0 <= k < s.len() ==> system.contains(#[trigger] s[k]) && paths.take(n as int).contains(s[k])
            &&& forall|k: int| 0 <= k < u.len() ==> !system.contains(#[trigger] u[k]) && paths.take(n as int).contains(u[k])
            &&& forall|i: int| 0 <= i < n && system.contains(#[trigger] paths[i]) ==> s.contains(paths[i])
            &&& forall|i: int| 0 <= i < n && !system.contains(#[trigger] paths[i]) ==> u.contains(paths[i])
        }),
    decreases n,
{
    if n > 0 {
        law_split_selection(paths, system, (n - 1) as nat);
        let (u0, s0) = split_selection_spec(paths, system, (n - 1) as nat);
        let (u, s) = split_selection_spec(paths, system, n);
        let m = n - 1;
        let pre = paths.take(m as int);
        let full = paths.take(n as int);
        assert forall|x: Seq<char>| pre.contains(x) implies full.contains(x) by {
            let j = choose|j: int| 0 <= j < pre.len() && pre[j] == x;
            assert(full[j] == x);
        }
        assert(full[m as int] == paths[m as int]);
        assert forall|k: int| 0 <= k < s.len() implies system.contains(#[trigger] s[k]) && full.contains(s[k]) by {
            if k < s0.len() {
                assert(s[k] == s0[k]);
            }
        }
        assert forall|k: int| 0 <= k < u.len() implies !system.contains(#[trigger] u[k]) && full.contains(u[k]) by {
            if k < u0.len() {
                assert(u[k] == u0[k]);
            }
        }
        assert forall|i: int| 0 <= i < n && system.contains(#[trigger] paths[i]) implies s.contains(paths[i]) by {
            if i < m {
                let k = choose|k: int| 0 <= k < s0.len() && s0[k] == paths[i];
                assert(s[k] == s0[k]);
            } else {
                assert(s[s.len() - 1] == paths[i]);
            }
        }
        assert forall|i: int| 0 <= i < n && !system.contains(#[trigger] paths[i]) implies u.contains(paths[i]) by {
            if i < m {
                let k = choose|k: int| 0 <= k < u0.len() && u0[k] == paths[i];
                assert(u[k] == u0[k]);
            } else {
                assert(u[u.len() - 1] == paths[i]);
            }
        }
    }
}

/// Splits the selected options into user files and system files.
pub fn split_selection(selected: &Vec<String>, system: &Vec<String>) -> (r: (Vec<String>, Vec<String>))
    requires
        forall|i: int|
            0 <= i < selected@.len() ==> has_prefix(#[trigger] selected@[i]@, "[SYSTEM] "@) || has_prefix(
                selected@[i]@,
                "[USER] "@,
            ),
    ensures
        (crate::path::views(r.0@), crate::path::views(r.1@)) == split_selection_spec(
            selected@.map_values(|s: String| selected_path_spec(s@)),
            crate::path::views(system@),
            selected@.len(),
        ),
{
    let ghost paths = selected@.map_values(|s: String| selected_path_spec(s@));
    let mut user_files: Vec<String> = Vec::new();
    let mut system_files: Vec<String> = Vec::new();
    let mut i: usize = 0;
    while i < selected.len()
        invariant
            forall|k: int|
                0 <= k < selected@.len() ==> has_prefix(#[trigger] selected@[k]@, "[SYSTEM] "@) || has_prefix(
                    selected@[k]@,
                    "[USER] "@,
                ),
            paths == selected@.map_values(|s: String| selected_path_spec(s@)),
            i <= selected.len(),
            (crate::path::views(user_files@), crate::path::views(system_files@)) == split_selection_spec(
                paths,
                crate::path::views(system@),
                i as nat,
            ),
        decreases selected.len() - i,
    {
        let p = selected_path(selected[i].as_str());
        proof {
            assert(paths[i as int] == p@);
        }
        if contains_path(system, p.as_str()) {
            let ghost before = system_files@;
            system_files.push(p);
            proof {
                assert(crate::path::views(system_files@) =~= crate::path::views(before).push(paths[i as int]));
            }
        } else {
            let ghost before = user_files@;
            user_files.push(p);
            proof {
                assert(crate::path::views(user_files@) =~= crate::path::views(before).push(paths[i as int]));
            }
        }
        i = i + 1;
    }
    (user_files, system_files)
}

/// The line a dry run prints for a file it would delete.
pub open spec fn dry_run_line_spec(path: Seq<char>, permanent: bool, needs_sudo: bool) -> Seq<char> {
    "🔍 Would "@ + (if needs_sudo { "[SUDO] "@ } else { Seq::<char>::empty() }) + (if permanent {
        "permanently delete"@
    } else {
        "move to trash"@
    }) + ": "@ + path
}

/// The line a dry run prints for a file it would delete.
pub fn dry_run_line(path: &str, permanent: bool, needs_sudo: bool) -> (r: String)
    ensures
        r@ == dry_run_line_spec(path@, permanent, needs_sudo),
{
    let mut s = owned("🔍 Would ");
    if needs_sudo {
        s.append("[SUDO] ");
    }
    if permanent {
        s.append("permanently delete");
    } else {
        s.append("move to trash");
    }
    s.append(": ");
    s.append(path);
    proof {
        assert(s@ =~= dry_run_line_spec(path@, permanent, needs_sudo));
    }
    s
}

/// The first line of a run, which says what will happen to the files.
pub fn deletion_banner(args: &DeleteArgs) -> (r: &'static str)
    ensures
        args.dry_run ==> r@ == "🔍 Running in dry-run mode - no files will be deleted"@,
        !args.dry_run && args.permanent ==> r@ == "🗑 Permanently deleting application and related files..."@,
        !args.dry_run && !args.permanent ==> r@ == "🗑 Moving application and related files to trash..."@,
{
    if args.dry_run {
        "🔍 Running in dry-run mode - no files will be deleted"
    } else if args.permanent {
        "🗑 Permanently deleting application and related files..."
    } else {
        "🗑 Moving application and related files to trash..."
    }
}

/// The last line of a run, for application `app`, given whether everything
/// went through.
pub open spec fn outcome_line_spec(app: Seq<char>, dry_run: bool, complete: bool) -> Seq<char> {
    if complete {
        if dry_run {
            "✅ "@ + app + " and related files would be removed."@
        } else {
            "✅ "@ + app + " and related files removed."@
        }
    } else if dry_run {
        "⚠️ "@ + app + " would be partially deleted (some issues detected)."@
    } else {
        "⚠️ "@ + app + " was partially deleted (some errors occurred)."@
    }
}

/// The last line of a run (see [`outcome_line_spec`]).
pub fn outcome_line(app: &str, dry_run: bool, complete: bool) -> (r: String)
    ensures
        r@ == outcome_line_spec(app@, dry_run, complete),
{
    let (head, tail) = if complete {
        if dry_run {
            ("✅ ", " and related files would be removed.")
        } else {
            ("✅ ", " and related files removed.")
        }
    } else if dry_run {
        ("⚠️ ", " would be partially deleted (some issues detected).")
    } else {
        ("⚠️ ", " was partially deleted (some errors occurred).")
    };
    let mut s = owned(head);
    s.append(app);
    s.append(tail);
    s
}

/// What deleting an application starts with, once the related files are
/// known: nothing at all to delete, a choice among the related files, or
/// only the application bundle.
#[derive(Debug, Clone, Copy, PartialEq, Eq, Structural)]
pub enum DeletionStart {
    /// No related file and no bundle: the deletion is complete as it is.
    NothingFound,
    /// The user picks among the related files.
    Prompt,
    /// No related file, but the bundle is there to delete.
    BundleOnly,
}

/// How deleting starts with `option_count` related files offered and the
/// bundle present or not.
pub fn deletion_start(option_count: usize, bundle_exists: bool) -> (r: DeletionStart)
    ensures
        option_count == 0 && !bundle_exists ==> r == DeletionStart::NothingFound,
        option_count > 0 ==> r == DeletionStart::Prompt,
        option_count == 0 && bundle_exists ==> r == DeletionStart::BundleOnly,
{
    if option_count > 0 {
        DeletionStart::Prompt
    } else if bundle_exists {
        DeletionStart::BundleOnly
    } else {
        DeletionStart::NothingFound
    }
}

/// The line shown when nothing related to `app` is found.
pub fn nothing_found_line(app: &str) -> (r: String)
    ensures
        r@ == "\u{1f4c1} No related files found for "@ + app@,
{
    let mut s = owned("\u{1f4c1} No related files found for ");
    s.append(app);
    s
}

/// The line shown before the Homebrew uninstall of `app`, or in a dry run
/// instead of it.
pub fn homebrew_line(app: &str, dry_run: bool) -> (r: String)
    ensures
        dry_run ==> r@ == "[DRY RUN] Would uninstall "@ + app@ + " via Homebrew"@,
        !dry_run ==> r@ == "\u{1f5d1}\u{fe0f} Uninstalling "@ + app@ + " via Homebrew..."@,
{
    let mut s = owned(if dry_run { "[DRY RUN] Would uninstall " } else { "\u{1f5d1}\u{fe0f} Uninstalling " });
    s.append(app);
    s.append(if dry_run { " via Homebrew" } else { " via Homebrew..." });
    s
}

/// The notice before system files are deleted: only when there are some
/// and the run is not dry.
pub fn sudo_notice(system_count: usize, dry_run: bool, permanent: bool) -> (r: Option<&'static str>)
    ensures
        (system_count == 0 || dry_run) ==> r is None,
        (system_count > 0 && !dry_run && permanent) ==> (r matches Some(t) && t@
            == "\u{1f510} System files require sudo for permanent deletion..."@),
        (system_count > 0 && !dry_run && !permanent) ==> (r matches Some(t) && t@
            == "\u{1f510} System files require sudo for moving to trash..."@),
{
    if system_count == 0 || dry_run {
        None
    } else if permanent {
        Some("\u{1f510} System files require sudo for permanent deletion...")
    } else {
        Some("\u{1f510} System files require sudo for moving to trash...")
    }
}

/// The line shown as a file is deleted (outside a dry run): a permanent
/// deletion, or a move to the trash, marked when it needs sudo.
pub open spec fn deleting_line_spec(path: Seq<char>, permanent: bool, needs_sudo: bool) -> Seq<char> {
    if permanent {
        "\u{1f5d1} "@ + (if needs_sudo { "[SUDO] "@ } else { Seq::<char>::empty() }) + "Permanently deleting: "@ + path
    } else {
        "\u{1f5d1} "@ + (if needs_sudo { "[SUDO] Moving to trash"@ } else { "Moving to trash"@ }) + ": "@ + path
    }
}

/// The line of [`deleting_line_spec`].
pub fn deleting_line(path: &str, permanent: bool, needs_sudo: bool) -> (r: String)
    ensures
        r@ == deleting_line_spec(path@, permanent, needs_sudo),
{
    let mut s = owned("\u{1f5d1} ");
    if permanent {
        if needs_sudo {
            s.append("[SUDO] ");
        }
        s.append("Permanently deleting: ");
    } else {
        s.append(if needs_sudo { "[SUDO] Moving to trash" } else { "Moving to trash" });
        s.append(": ");
    }
    s.append(path);
    s
}

/// What is done with a file chosen for deletion.
#[derive(Debug, Clone, Copy, PartialEq, Eq, Structural)]
pub enum FileAction {
    /// A dry run: the file is only reported, nothing is deleted.
    Report,
    /// The file is removed for good; where removing it fails and
    /// `sudo_fallback` is set, the removal is retried with `sudo rm`.
    DeletePermanently { sudo_fallback: bool },
    /// The file is moved to the trash.
    MoveToTrash,
}

/// What is done with a file chosen for deletion: a dry run only reports
/// it; otherwise it is removed for good with `--permanent` (falling back to
/// `sudo` for a file that needs it), or moved to the trash.
pub fn file_action(args: &DeleteArgs, needs_sudo: bool) -> (r: FileAction)
    ensures
        args.dry_run ==> r == FileAction::Report,
        !args.dry_run && args.permanent ==> r == (FileAction::DeletePermanently { sudo_fallback: needs_sudo }),
        !args.dry_run && !args.permanent ==> r == FileAction::MoveToTrash,
{
    if args.dry_run {
        FileAction::Report
    } else if args.permanent {
        FileAction::DeletePermanently { sudo_fallback: needs_sudo }
    } else {
        FileAction::MoveToTrash
    }
}

/// Whether every step of a deletion succeeded: the deletion is complete
/// exactly when none failed.
pub fn all_succeeded(results: &Vec<bool>) -> (r: bool)
    ensures
        r == forall|i: int| 0 <= i < results@.len() ==> #[trigger] results@[i],
{
    let mut i: usize = 0;
    while i < results.len()
        invariant
            i <= results.len(),
            forall|j: int| 0 <= j < i ==> #[trigger] results@[j],
        decreases results.len() - i,
    {
        if !results[i] {
            return false;
        }
        i = i + 1;
    }
    true
}

/// The applications named by entries of `/Applications`, in entry order.
pub open spec fn app_names_spec(entries: Seq<Seq<char>>) -> Seq<Seq<char>>
    decreases entries.len(),
{
    if entries.len() == 0 {
        Seq::empty()
    } else {
        match app_name_of(entries.last()) {
            Some(n) => app_names_spec(entries.drop_last()).push(n),
            None => app_names_spec(entries.drop_last()),
        }
    }
}

/// The applications to offer for deletion: those named by the entries of
/// `/Applications` (`.app` bundles, without the extension), sorted.
pub fn app_names(entries: &Vec<String>) -> (r: Vec<String>)
    ensures
        strs_view(r@).to_multiset() == app_names_spec(strs_view(entries@)).to_multiset(),
        texts_sorted(strs_view(r@)),
{
    let mut names: Vec<String> = Vec::new();
    let mut i: usize = 0;
    while i < entries.len()
        invariant
            i <= entries.len(),
            strs_view(names@) == app_names_spec(strs_view(entries@).take(i as int)),
        decreases entries.len() - i,
    {
        proof {
            assert(strs_view(entries@).take(i + 1).drop_last() =~= strs_view(entries@).take(i as int));
            assert(strs_view(entries@).take(i + 1).last() == entries@[i as int]@);
        }
        match app_name_of_entry(entries[i].as_str()) {
            Some(n) => {
                let ghost before = names@;
                names.push(n);
                proof {
                    assert(strs_view(names@) =~= strs_view(before).push(n@));
                }
            },
            None => {},
        }
        i = i + 1;
    }
    proof {
        assert(strs_view(entries@).take(entries.len() as int) =~= strs_view(entries@));
    }
    sort_texts(&names)
}

} // verus!
