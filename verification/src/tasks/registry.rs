//! Managing the registry of linked configuration files: listing it by
//! category, adding, removing and switching entries.
use vstd::prelude::*;
use crate::cli::{RegistryActions, RegistryArgs};
use crate::registries::{RegistryItem, enabled_count, lemma_enabled_count_bound, lists_in_id_order, not_found_message};
use crate::registry::{LinkRegistry, RegistryEntry};
use crate::text::{clone_opt_string, decimal, is_listed, lemma_sorted_texts_unique, lemma_text_lt_transitive, lemma_text_lt_trichotomy, owned, repeat_str, repeat_text, str_eq, strs_view, text_less, text_lt, to_decimal, utf8_len};

verus! {

/// What `str::to_uppercase` gives for `s`: the Unicode upper-case mapping of
/// each character, which the standard library's tables define.
pub uninterp spec fn uppercase(s: Seq<char>) -> Seq<char>;

/// Calls `str::to_uppercase`; the contract claims only that the result is
/// [`uppercase`] of the argument, a function of the text alone.
#[verifier::external_body]
fn to_uppercase(s: &str) -> (r: String)
    ensures
        r@ == uppercase(s@),
{
    s.to_uppercase()
}

/// The text of an optional string.
pub open spec fn opt_text(o: Option<String>) -> Option<Seq<char>> {
    match o {
        Some(s) => Some(s@),
        None => None,
    }
}

/// Some listed entry is of category `c`.
pub open spec fn has_category(s: Seq<(String, RegistryEntry)>, c: Seq<char>) -> bool {
    exists|j: int| 0 <= j < s.len() && s[j].1.category@ == c
}

/// `cats` are the categories of the listed entries `s`, each once, in order.
pub open spec fn lists_categories(cats: Seq<Seq<char>>, s: Seq<(String, RegistryEntry)>) -> bool {
    &&& forall|i: int, j: int| 0 <= i < j < cats.len() ==> text_lt(#[trigger] cats[i], #[trigger] cats[j])
    &&& forall|i: int| 0 <= i < cats.len() ==> has_category(s, #[trigger] cats[i])
    &&& forall|j: int| 0 <= j < s.len() ==> is_listed(cats, (#[trigger] s[j]).1.category@)
}

/// The listed entries of category `c`, the disabled ones left out when `enabled_only`.
pub open spec fn in_category(s: Seq<(String, RegistryEntry)>, c: Seq<char>, enabled_only: bool) -> Seq<(String, RegistryEntry)>
    decreases s.len(),
{
    if s.len() == 0 {
        Seq::empty()
    } else if s.last().1.category@ == c && (!enabled_only || s.last().1.enabled) {
        in_category(s.drop_last(), c, enabled_only).push(s.last())
    } else {
        in_category(s.drop_last(), c, enabled_only)
    }
}

/// The lines that list one entry: status, name and id, its two paths, its
/// description if it has one, and a blank line.
pub open spec fn link_block(id: Seq<char>, e: RegistryEntry) -> Seq<Seq<char>> {
    seq![
        "  "@ + (if e.enabled { "\u{2705}"@ } else { "\u{274c}"@ }) + " "@ + e.name@ + " ("@ + id + ")"@,
        "     \u{1f4c1} Source: "@ + e.source_path@,
        "     \u{1f517} Target: "@ + e.target_path@,
    ] + match e.description {
        Some(d) => seq!["     \u{1f4ac} "@ + d@],
        None => Seq::empty(),
    } + seq![Seq::empty()]
}

/// The blocks of the entries `s`.
pub open spec fn link_blocks(s: Seq<(String, RegistryEntry)>) -> Seq<Seq<char>>
    decreases s.len(),
{
    if s.len() == 0 {
        Seq::empty()
    } else {
        link_blocks(s.drop_last()) + link_block(s.last().0@, s.last().1)
    }
}

/// The part of the listing for category `c`: nothing when another category
/// is asked for; else its title, underlined, and its shown entries; when
/// none is shown, a note if this category was asked for, else nothing.
pub open spec fn category_section(
    c: Seq<char>,
    s: Seq<(String, RegistryEntry)>,
    filter: Option<Seq<char>>,
    enabled_only: bool,
) -> Seq<Seq<char>> {
    let shown = in_category(s, c, enabled_only);
    if filter matches Some(f) && c != f {
        Seq::empty()
    } else if shown.len() > 0 {
        seq![
            Seq::empty(),
            "\u{1f3f7}\u{fe0f}  "@ + uppercase(c),
            repeat_text("\u{2500}"@, vstd::utf8::encode_utf8(c).len() + 4),
        ] + link_blocks(shown)
    } else if filter is Some {
        seq![Seq::empty(), "No entries found in category '"@ + c + "'"@]
    } else {
        Seq::empty()
    }
}

/// The sections of the categories `cats`, in order.
pub open spec fn category_sections(
    cats: Seq<Seq<char>>,
    s: Seq<(String, RegistryEntry)>,
    filter: Option<Seq<char>>,
    enabled_only: bool,
) -> Seq<Seq<char>>
    decreases cats.len(),
{
    if cats.len() == 0 {
        Seq::empty()
    } else {
        category_sections(cats.drop_last(), s, filter, enabled_only) + category_section(cats.last(), s, filter, enabled_only)
    }
}

/// The heading of the listing.
pub open spec fn listing_heading() -> Seq<Seq<char>> {
    seq!["\u{1f4cb} Registry Entries"@, "=================="@]
}

/// The listing of the entries `s` under their categories `cats`, with a
/// summary of `total` entries of which `enabled` are enabled.
pub open spec fn link_listing(
    s: Seq<(String, RegistryEntry)>,
    cats: Seq<Seq<char>>,
    filter: Option<Seq<char>>,
    enabled_only: bool,
    total: nat,
    enabled: nat,
) -> Seq<Seq<char>> {
    listing_heading() + category_sections(cats, s, filter, enabled_only) + seq![
        "Summary: "@ + decimal(total) + " total entries, "@ + decimal(enabled) + " enabled"@,
    ]
}

/// The entries of a registry have one list of categories.
pub proof fn law_categories_unique(c1: Seq<Seq<char>>, c2: Seq<Seq<char>>, s: Seq<(String, RegistryEntry)>)
    requires
        lists_categories(c1, s),
        lists_categories(c2, s),
    ensures
        c1 == c2,
{
    assert forall|x: Seq<char>| is_listed(c1, x) <==> is_listed(c2, x) by {
        if is_listed(c1, x) {
            let i = choose|i: int| 0 <= i < c1.len() && c1[i] == x;
            assert(has_category(s, c1[i]));
            let j = choose|j: int| 0 <= j < s.len() && s[j].1.category@ == x;
            assert(is_listed(c2, s[j].1.category@));
        }
        if is_listed(c2, x) {
            let i = choose|i: int| 0 <= i < c2.len() && c2[i] == x;
            assert(has_category(s, c2[i]));
            let j = choose|j: int| 0 <= j < s.len() && s[j].1.category@ == x;
            assert(is_listed(c1, s[j].1.category@));
        }
    }
    lemma_sorted_texts_unique(c1, c2);
}

/// The lines of [`link_block`].
pub fn link_lines(id: &str, e: &RegistryEntry) -> (r: Vec<String>)
    ensures
        strs_view(r@) == link_block(id@, *e),
{
    let mut first = owned("  ");
    first.append(if e.enabled { "\u{2705}" } else { "\u{274c}" });
    first.append(" ");
    first.append(e.name.as_str());
    first.append(" (");
    first.append(id);
    first.append(")");
    let mut source = owned("     \u{1f4c1} Source: ");
    source.append(e.source_path.as_str());
    let mut target = owned("     \u{1f517} Target: ");
    target.append(e.target_path.as_str());
    let mut r = vec![first, source, target];
    match &e.description {
        Some(d) => {
            let mut line = owned("     \u{1f4ac} ");
            line.append(d.as_str());
            r.push(line);
        },
        None => {},
    }
    r.push(String::new());
    proof {
        assert(strs_view(r@) =~= link_block(id@, *e));
    }
    r
}

/// Strictly increasing texts stay so with `c` put where it belongs.
proof fn lemma_insert_sorted_text(cats: Seq<Seq<char>>, pos: int, c: Seq<char>)
    requires
        forall|i: int, j: int| 0 <= i < j < cats.len() ==> text_lt(#[trigger] cats[i], #[trigger] cats[j]),
        0 <= pos <= cats.len(),
        forall|j: int| 0 <= j < pos ==> text_lt(#[trigger] cats[j], c),
        pos < cats.len() ==> text_lt(c, cats[pos]),
    ensures
        forall|i: int, j: int| 0 <= i < j < cats.insert(pos, c).len() ==> text_lt(
            #[trigger] cats.insert(pos, c)[i],
            #[trigger] cats.insert(pos, c)[j],
        ),
{
    let t = cats.insert(pos, c);
    assert forall|i: int, j: int| 0 <= i < j < t.len() implies text_lt(#[trigger] t[i], #[trigger] t[j]) by {
        if j < pos {
            assert(t[i] == cats[i] && t[j] == cats[j]);
        } else if i > pos {
            assert(t[i] == cats[i - 1] && t[j] == cats[j - 1]);
        } else if i < pos && j > pos {
            assert(t[i] == cats[i] && t[j] == cats[j - 1]);
            if j - 1 > pos {
                lemma_text_lt_transitive(c, cats[pos], cats[j - 1]);
            }
            lemma_text_lt_transitive(cats[i], c, cats[j - 1]);
        } else if i == pos {
            assert(t[j] == cats[j - 1]);
            if j - 1 > pos {
                lemma_text_lt_transitive(c, cats[pos], cats[j - 1]);
            }
        } else {
            assert(t[i] == cats[i]);
        }
    }
}

/// A category already listed stays listed once more entries of it come.
proof fn lemma_category_present(cats: Seq<Seq<char>>, t: Seq<(String, RegistryEntry)>, x: (String, RegistryEntry), pos: int)
    requires
        lists_categories(cats, t),
        0 <= pos < cats.len(),
        cats[pos] == x.1.category@,
    ensures
        lists_categories(cats, t.push(x)),
{
    let t2 = t.push(x);
    assert forall|a: int| 0 <= a < cats.len() implies has_category(t2, #[trigger] cats[a]) by {
        assert(has_category(t, cats[a]));
        let j = choose|j: int| 0 <= j < t.len() && t[j].1.category@ == cats[a];
        assert(t2[j] == t[j]);
    }
    assert forall|j: int| 0 <= j < t2.len() implies is_listed(cats, (#[trigger] t2[j]).1.category@) by {
        if j < t.len() {
            assert(t2[j] == t[j]);
        } else {
            assert(t2[j] == x);
        }
    }
}

/// A new category put where it belongs lists the categories of one more entry.
proof fn lemma_category_added(cats: Seq<Seq<char>>, t: Seq<(String, RegistryEntry)>, x: (String, RegistryEntry), pos: int)
    requires
        lists_categories(cats, t),
        0 <= pos <= cats.len(),
        forall|i: int, j: int| 0 <= i < j < cats.insert(pos, x.1.category@).len() ==> text_lt(
            #[trigger] cats.insert(pos, x.1.category@)[i],
            #[trigger] cats.insert(pos, x.1.category@)[j],
        ),
    ensures
        lists_categories(cats.insert(pos, x.1.category@), t.push(x)),
{
    let c = x.1.category@;
    let t2 = t.push(x);
    let after = cats.insert(pos, c);
    assert forall|a: int| 0 <= a < after.len() implies has_category(t2, #[trigger] after[a]) by {
        if a == pos {
            assert(t2[t.len() as int] == x);
        } else {
            let a0 = if a < pos { a } else { a - 1 };
            assert(after[a] == cats[a0]);
            assert(has_category(t, cats[a0]));
            let j = choose|j: int| 0 <= j < t.len() && t[j].1.category@ == cats[a0];
            assert(t2[j] == t[j]);
        }
    }
    assert forall|j: int| 0 <= j < t2.len() implies is_listed(after, (#[trigger] t2[j]).1.category@) by {
        if j < t.len() {
            assert(t2[j] == t[j]);
            assert(is_listed(cats, t[j].1.category@));
            let a0 = choose|a: int| 0 <= a < cats.len() && cats[a] == t[j].1.category@;
            if a0 < pos {
                assert(after[a0] == cats[a0]);
            } else {
                assert(after[a0 + 1] == cats[a0]);
            }
        } else {
            assert(t2[j] == x);
            assert(after[pos] == c);
        }
    }
}

/// The categories of the entries `s`, each once, in order.
pub fn sorted_categories(s: &Vec<(String, RegistryEntry)>) -> (r: Vec<String>)
    ensures
        lists_categories(strs_view(r@), s@),
{
    let mut cats: Vec<String> = Vec::new();
    let mut i: usize = 0;
    while i < s.len()
        invariant
            i <= s.len(),
            lists_categories(strs_view(cats@), s@.take(i as int)),
        decreases s.len() - i,
    {
        let c = s[i].1.category.as_str();
        let mut pos: usize = 0;
        let mut stop = false;
        while !stop && pos < cats.len()
            invariant
                pos <= cats.len(),
                stop ==> pos < cats.len() && !text_lt(cats@[pos as int]@, c@),
                forall|j: int| 0 <= j < pos ==> text_lt(#[trigger] cats@[j]@, c@),
            decreases cats.len() + 1 - pos - (if stop { 1int } else { 0int }),
        {
            if text_less(cats[pos].as_str(), c) {
                pos = pos + 1;
            } else {
                stop = true;
            }
        }
        let ghost before = strs_view(cats@);
        proof {
            assert(s@.take(i + 1) =~= s@.take(i as int).push(s@[i as int]));
        }
        if stop && str_eq(cats[pos].as_str(), c) {
            proof {
                lemma_category_present(before, s@.take(i as int), s@[i as int], pos as int);
            }
        } else {
            proof {
                if stop {
                    lemma_text_lt_trichotomy(c@, cats@[pos as int]@);
                }
                lemma_insert_sorted_text(before, pos as int, c@);
                lemma_category_added(before, s@.take(i as int), s@[i as int], pos as int);
            }
            let owned_c = s[i].1.category.clone();
            cats.insert(pos, owned_c);
            proof {
                assert(strs_view(cats@) =~= before.insert(pos as int, c@));
            }
        }
        i = i + 1;
    }
    proof {
        assert(s@.take(s.len() as int) =~= s@);
    }
    cats
}

/// The lines of [`category_section`].
pub fn category_lines(c: &str, s: &Vec<(String, RegistryEntry)>, filter: &Option<String>, enabled_only: bool) -> (r: Vec<
    String,
>)
    ensures
        strs_view(r@) == category_section(c@, s@, opt_text(*filter), enabled_only),
{
    let other = match filter {
        Some(f) => !str_eq(c, f.as_str()),
        None => false,
    };
    if other {
        return Vec::new();
    }
    let mut blocks: Vec<String> = Vec::new();
    let mut shown: usize = 0;
    let mut i: usize = 0;
    proof {
        assert(s@.take(0) =~= Seq::<(String, RegistryEntry)>::empty());
    }
    while i < s.len()
        invariant
            i <= s.len(),
            shown <= i,
            shown == in_category(s@.take(i as int), c@, enabled_only).len(),
            strs_view(blocks@) == link_blocks(in_category(s@.take(i as int), c@, enabled_only)),
        decreases s.len() - i,
    {
        proof {
            assert(s@.take(i + 1).drop_last() =~= s@.take(i as int));
            assert(s@.take(i + 1).last() == s@[i as int]);
        }
        let e = &s[i].1;
        if str_eq(e.category.as_str(), c) && (!enabled_only || e.enabled) {
            let mut block = link_lines(s[i].0.as_str(), e);
            let ghost before = blocks@;
            blocks.append(&mut block);
            shown = shown + 1;
            proof {
                let sh = in_category(s@.take(i as int), c@, enabled_only);
                assert(sh.push(s@[i as int]).drop_last() =~= sh);
                assert(strs_view(blocks@) =~= strs_view(before) + link_block(s@[i as int].0@, s@[i as int].1));
            }
        }
        i = i + 1;
    }
    proof {
        assert(s@.take(s.len() as int) =~= s@);
    }
    if shown > 0 {
        let mut title = owned("\u{1f3f7}\u{fe0f}  ");
        title.append(to_uppercase(c).as_str());
        let rule = repeat_str("\u{2500}", utf8_len(c) + 4);
        let mut r = vec![String::new(), title, rule];
        r.append(&mut blocks);
        proof {
            assert(strs_view(r@) =~= category_section(c@, s@, opt_text(*filter), enabled_only));
        }
        r
    } else if filter.is_some() {
        let mut note = owned("No entries found in category '");
        note.append(c);
        note.append("'");
        let r = vec![String::new(), note];
        proof {
            assert(strs_view(r@) =~= category_section(c@, s@, opt_text(*filter), enabled_only));
        }
        r
    } else {
        let r: Vec<String> = Vec::new();
        proof {
            assert(strs_view(r@) =~= category_section(c@, s@, opt_text(*filter), enabled_only));
        }
        r
    }
}

/// The listing of the registry by category, the categories in order and
/// the entries of each in the order of their ids; `filter` keeps one
/// category, `enabled_only` the enabled entries.
pub fn list_lines(registry: &LinkRegistry, filter: &Option<String>, enabled_only: bool) -> (r: Vec<String>)
    requires
        registry.wf(),
    ensures
        exists|s: Seq<(String, RegistryEntry)>, cats: Seq<Seq<char>>|
            #[trigger] lists_in_id_order(s, registry.view()) && #[trigger] lists_categories(cats, s) && strs_view(r@)
                == link_listing(s, cats, opt_text(*filter), enabled_only, registry.view().len(), enabled_count(s)),
{
    let sorted = registry.sorted_by_id();
    let cats = sorted_categories(&sorted);
    let total = registry.len();
    let mut r = vec![owned("\u{1f4cb} Registry Entries"), owned("==================")];
    let mut k: usize = 0;
    proof {
        assert(strs_view(cats@).take(0) =~= Seq::<Seq<char>>::empty());
        assert(strs_view(r@) =~= listing_heading());
    }
    while k < cats.len()
        invariant
            k <= cats.len(),
            strs_view(r@) == listing_heading() + category_sections(strs_view(cats@).take(k as int), sorted@, opt_text(*filter), enabled_only),
        decreases cats.len() - k,
    {
        proof {
            assert(strs_view(cats@).take(k + 1).drop_last() =~= strs_view(cats@).take(k as int));
            assert(strs_view(cats@).take(k + 1).last() == cats@[k as int]@);
        }
        let mut section = category_lines(cats[k].as_str(), &sorted, filter, enabled_only);
        let ghost before = r@;
        r.append(&mut section);
        proof {
            assert(strs_view(r@) =~= strs_view(before) + category_section(cats@[k as int]@, sorted@, opt_text(*filter), enabled_only));
        }
        k = k + 1;
    }
    let mut enabled: usize = 0;
    let mut i: usize = 0;
    while i < sorted.len()
        invariant
            i <= sorted.len(),
            enabled == enabled_count(sorted@.take(i as int)),
        decreases sorted.len() - i,
    {
        proof {
            assert(sorted@.take(i + 1).drop_last() =~= sorted@.take(i as int));
            lemma_enabled_count_bound(sorted@.take(i as int));
        }
        if sorted[i].1.enabled {
            enabled = enabled + 1;
        }
        i = i + 1;
    }
    let mut summary = owned("Summary: ");
    summary.append(to_decimal(total as u128).as_str());
    summary.append(" total entries, ");
    summary.append(to_decimal(enabled as u128).as_str());
    summary.append(" enabled");
    let ghost before = r@;
    r.push(summary);
    proof {
        assert(sorted@.take(sorted.len() as int) =~= sorted@);
        assert(strs_view(cats@).take(cats.len() as int) =~= strs_view(cats@));
        assert(strs_view(r@) =~= strs_view(before).push(summary@));
        assert(strs_view(r@) == link_listing(
            sorted@,
            strs_view(cats@),
            opt_text(*filter),
            enabled_only,
            registry.view().len(),
            enabled_count(sorted@),
        ));
    }
    r
}

/// What `mntn registry` answers: whether the registry changed and is to be
/// saved before the lines are shown, and the lines.
#[derive(Debug, Clone)]
pub struct RegistryReply {
    pub save: bool,
    pub lines: Vec<String>,
}

/// The entry that `mntn registry add` files: enabled from the start.
pub open spec fn added_entry(
    name: String,
    source: String,
    target: String,
    category: String,
    description: Option<String>,
) -> RegistryEntry {
    RegistryEntry { name, source_path: source, target_path: target, category, enabled: true, description }
}

/// `after`, `save` and `lines` are what `action` makes of the registry
/// `before`: a listing changes nothing; an add refuses a taken id, a remove
/// or a switch an unknown one, each with its message; a done edit is saved
/// and reported.
pub open spec fn registry_reply(
    action: RegistryActions,
    before: Map<Seq<char>, RegistryEntry>,
    after: Map<Seq<char>, RegistryEntry>,
    save: bool,
    lines: Seq<Seq<char>>,
) -> bool {
    match action {
        RegistryActions::List { category, enabled_only } => {
            &&& !save
            &&& after == before
            &&& exists|s: Seq<(String, RegistryEntry)>, cats: Seq<Seq<char>>|
                #[trigger] lists_in_id_order(s, before) && #[trigger] lists_categories(cats, s) && lines
                    == link_listing(s, cats, opt_text(category), enabled_only, before.len(), enabled_count(s))
        },
        RegistryActions::Add { id, name, source, target, category, description } => if before.contains_key(id@) {
            !save && after == before && lines == seq!["\u{274c} Entry with ID '"@ + id@ + "' already exists"@]
        } else {
            &&& save
            &&& after == before.insert(id@, added_entry(name, source, target, category, description))
            &&& lines == seq![
                "\u{2705} Added entry '"@ + name@ + "' to registry"@,
                "   ID: "@ + id@,
                "   Category: "@ + category@,
            ]
        },
        RegistryActions::Remove { id } => if before.contains_key(id@) {
            &&& save
            &&& after == before.remove(id@)
            &&& lines == seq!["\u{2705} Removed entry '"@ + before[id@].name@ + "' from registry"@]
        } else {
            !save && after == before && lines == seq!["\u{274c} Entry with ID '"@ + id@ + "' not found"@]
        },
        RegistryActions::Toggle { id, enable } => if before.contains_key(id@) {
            &&& save
            &&& after == before.insert(id@, before[id@].with_enabled_spec(enable))
            &&& lines == seq![
                "\u{2705} "@ + (if enable { "enabled"@ } else { "disabled"@ }) + " entry '"@ + before[id@].name@ + "'"@,
            ]
        } else {
            !save && after == before && lines == seq!["\u{274c} "@ + not_found_message(id@)]
        },
    }
}

/// Runs `mntn registry` on the loaded registry (see [`registry_reply`]).
pub fn run(args: RegistryArgs, registry: &mut LinkRegistry) -> (r: RegistryReply)
    requires
        old(registry).wf(),
    ensures
        final(registry).wf(),
        registry_reply(args.action, old(registry).view(), final(registry).view(), r.save, strs_view(r.lines@)),
{
    match args.action {
        RegistryActions::List { category, enabled_only } => {
            let lines = list_lines(registry, &category, enabled_only);
            RegistryReply { save: false, lines }
        },
        RegistryActions::Add { id, name, source, target, category, description } => {
            let entry = RegistryEntry {
                name: name.clone(),
                source_path: source,
                target_path: target,
                category: category.clone(),
                enabled: true,
                description,
            };
            let id_text = id.clone();
            if registry.add_new_entry(id, entry) {
                let mut added = owned("\u{2705} Added entry '");
                added.append(name.as_str());
                added.append("' to registry");
                let mut id_line = owned("   ID: ");
                id_line.append(id_text.as_str());
                let mut category_line = owned("   Category: ");
                category_line.append(category.as_str());
                let lines = vec![added, id_line, category_line];
                proof {
                    assert(strs_view(lines@) =~= seq![
                        "\u{2705} Added entry '"@ + name@ + "' to registry"@,
                        "   ID: "@ + id_text@,
                        "   Category: "@ + category@,
                    ]);
                }
                RegistryReply { save: true, lines }
            } else {
                let mut taken = owned("\u{274c} Entry with ID '");
                taken.append(id_text.as_str());
                taken.append("' already exists");
                let lines = vec![taken];
                proof {
                    assert(strs_view(lines@) =~= seq!["\u{274c} Entry with ID '"@ + id_text@ + "' already exists"@]);
                }
                RegistryReply { save: false, lines }
            }
        },
        RegistryActions::Remove { id } => {
            let ghost before = registry.view();
            match registry.remove_entry(id.as_str()) {
            Some(entry) => {
                let mut removed = owned("\u{2705} Removed entry '");
                removed.append(entry.name.as_str());
                removed.append("' from registry");
                let lines = vec![removed];
                proof {
                    assert(strs_view(lines@) =~= seq!["\u{2705} Removed entry '"@ + entry.name@ + "' from registry"@]);
                }
                RegistryReply { save: true, lines }
            },
            None => {
                let mut missing = owned("\u{274c} Entry with ID '");
                missing.append(id.as_str());
                missing.append("' not found");
                let lines = vec![missing];
                proof {
                    assert(before.remove(id@) =~= before);
                    assert(strs_view(lines@) =~= seq!["\u{274c} Entry with ID '"@ + id@ + "' not found"@]);
                }
                RegistryReply { save: false, lines }
            },
            }
        },
        RegistryActions::Toggle { id, enable } => {
            let ghost before = registry.view();
            match registry.set_entry_enabled(id.as_str(), enable) {
                Ok(()) => {
                    let mut done = owned("\u{2705} ");
                    done.append(if enable { "enabled" } else { "disabled" });
                    done.append(" entry '");
                    match registry.get_entry(id.as_str()) {
                        Some(e) => done.append(e.name.as_str()),
                        None => {},
                    }
                    done.append("'");
                    let lines = vec![done];
                    proof {
                        before[id@].lemma_with_enabled(enable);
                        assert(strs_view(lines@) =~= seq![
                            "\u{2705} "@ + (if enable { "enabled"@ } else { "disabled"@ }) + " entry '"@ + before[id@].name@ + "'"@,
                        ]);
                    }
                    RegistryReply { save: true, lines }
                },
                Err(msg) => {
                    let mut failed = owned("\u{274c} ");
                    failed.append(msg.as_str());
                    let lines = vec![failed];
                    proof {
                        assert(strs_view(lines@) =~= seq!["\u{274c} "@ + not_found_message(id@)]);
                    }
                    RegistryReply { save: false, lines }
                },
            }
        },
    }
}

} // verus!
