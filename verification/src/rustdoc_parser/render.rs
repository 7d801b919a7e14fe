//! Extraction and rendering, implemented once over the intermediate model:
//! the crate summary and the single-item description. The exact output
//! text is pinned by spec functions over the document.

use vstd::prelude::*;
use vstd::string::*;

use crate::errors::ParseError;
use crate::model::{
    get_item, lookup, root_children, Document, Item, ItemKind, StructKind, Visibility,
};
use crate::text::{dec_rep, doc_line, get_first_line, join_strings, join_with, u64_to_dec};

verus! {

/// The categories of the crate summary, in their fixed section order.
#[derive(Clone, Copy, Debug, PartialEq, Eq, Structural)]
pub enum Category {
    Modules,
    Structs,
    Enums,
    Traits,
    Functions,
}

/// Whether an item's kind belongs to a summary category.
pub open spec fn in_category(it: Item, cat: Category) -> bool {
    match cat {
        Category::Modules => it.kind is Module,
        Category::Structs => it.kind is Struct,
        Category::Enums => it.kind is Enum,
        Category::Traits => it.kind is Trait,
        Category::Functions => it.kind is Function,
    }
}

/// Whether a root child is listed under a category: it must resolve in the
/// index, be public, bear a name, and be of the category's kind. Items of
/// any other visibility are excluded from every category.
pub open spec fn listed(doc: Document, id: u64, cat: Category) -> bool {
    match lookup(doc.index@, id) {
        Some(it) => it.visibility is Public && it.name is Some && in_category(it, cat),
        None => false,
    }
}

/// The listing line of one item: its name in emphasis, then the first line
/// of its documentation when it has any.
pub open spec fn entry_line(it: Item) -> Seq<char> {
    let base = "- **"@ + (it.name->0)@ + "**"@;
    match it.docs {
        Some(d) => base + ": "@ + doc_line(d@),
        None => base,
    }
}

/// The listing lines of one category, over the given children in order.
pub open spec fn category_lines(doc: Document, children: Seq<u64>, cat: Category) -> Seq<
    Seq<char>,
>
    decreases children.len(),
{
    if children.len() == 0 {
        Seq::empty()
    } else {
        let head: Seq<Seq<char>> = if listed(doc, children[0], cat) {
            seq![entry_line(lookup(doc.index@, children[0])->0)]
        } else {
            Seq::empty()
        };
        head + category_lines(doc, children.drop_first(), cat)
    }
}

/// The heading of a category section.
pub open spec fn category_heading(cat: Category) -> Seq<char> {
    match cat {
        Category::Modules => "Modules"@,
        Category::Structs => "Structs"@,
        Category::Enums => "Enums"@,
        Category::Traits => "Traits"@,
        Category::Functions => "Functions"@,
    }
}

/// A category's contribution to the summary: nothing when it has no
/// entries, else one section of heading and lines.
pub open spec fn category_section(doc: Document, cat: Category) -> Seq<Seq<char>> {
    let lines = category_lines(doc, root_children(doc), cat);
    if lines.len() == 0 {
        Seq::empty()
    } else {
        seq!["\n## "@ + category_heading(cat) + "\n"@ + join_with(lines, "\n"@)]
    }
}

/// The summary header: the crate name, with its version when present.
/// A nameless root item contributes no header.
pub open spec fn header_section(doc: Document) -> Seq<Seq<char>> {
    match lookup(doc.index@, doc.root_id) {
        Some(root) => match root.name {
            Some(n) => {
                let base = "# Crate: "@ + n@;
                match doc.crate_version {
                    Some(v) => seq![base + " v"@ + v@],
                    None => seq![base],
                }
            },
            None => Seq::empty(),
        },
        None => Seq::empty(),
    }
}

/// The root item's documentation, verbatim, when present.
pub open spec fn docs_section(doc: Document) -> Seq<Seq<char>> {
    match lookup(doc.index@, doc.root_id) {
        Some(root) => match root.docs {
            Some(d) => seq!["\n## Documentation\n"@ + d@],
            None => Seq::empty(),
        },
        None => Seq::empty(),
    }
}

/// The whole crate summary: header, documentation, then one section per
/// non-empty category, in fixed order, joined with line breaks.
pub open spec fn summary_text(doc: Document) -> Seq<char> {
    join_with(
        header_section(doc) + docs_section(doc) + category_section(doc, Category::Modules)
            + category_section(doc, Category::Structs) + category_section(doc, Category::Enums)
            + category_section(doc, Category::Traits) + category_section(
            doc,
            Category::Functions,
        ),
        "\n"@,
    )
}

/// The display label of an item's kind.
pub open spec fn kind_label_of(k: ItemKind) -> Seq<char> {
    match k {
        ItemKind::Module { .. } => "Module"@,
        ItemKind::Struct { .. } => "Struct"@,
        ItemKind::Enum { .. } => "Enum"@,
        ItemKind::Function { .. } => "Function"@,
        ItemKind::Trait { .. } => "Trait"@,
        ItemKind::Other { label } => label@,
    }
}

/// The display label of a visibility.
pub open spec fn visibility_label(v: Visibility) -> Seq<char> {
    match v {
        Visibility::Public => "Public"@,
        Visibility::Default => "Default"@,
        Visibility::Crate => "Crate"@,
        Visibility::Restricted => "Restricted"@,
    }
}

/// The display label of a struct's kind.
pub open spec fn struct_kind_label(k: StructKind) -> Seq<char> {
    match k {
        StructKind::Plain => "plain"@,
        StructKind::Tuple => "tuple"@,
        StructKind::Unit => "unit"@,
    }
}

/// The attribute words of a function, in fixed order.
pub open spec fn function_attrs(is_const: bool, is_async: bool, is_unsafe: bool) -> Seq<
    Seq<char>,
> {
    (if is_const {
        seq!["const"@]
    } else {
        Seq::<Seq<char>>::empty()
    }) + (if is_async {
        seq!["async"@]
    } else {
        Seq::<Seq<char>>::empty()
    }) + (if is_unsafe {
        seq!["unsafe"@]
    } else {
        Seq::<Seq<char>>::empty()
    })
}

/// The attribute words of a trait, in fixed order.
pub open spec fn trait_attrs(is_auto: bool, is_unsafe: bool) -> Seq<Seq<char>> {
    (if is_auto {
        seq!["auto"@]
    } else {
        Seq::<Seq<char>>::empty()
    }) + (if is_unsafe {
        seq!["unsafe"@]
    } else {
        Seq::<Seq<char>>::empty()
    })
}

/// The kind-specific detail sections of a described item. Counts of zero
/// are omitted, and an empty attribute list contributes nothing.
pub open spec fn detail_sections(k: ItemKind) -> Seq<Seq<char>> {
    match k {
        ItemKind::Struct { struct_kind, impl_count } => seq![
            "\n**Struct Type:** "@ + struct_kind_label(struct_kind),
        ] + (if impl_count > 0 {
            seq![
                "\n**Implementations:** "@ + dec_rep(impl_count as int) + " impl block(s)"@,
            ]
        } else {
            Seq::<Seq<char>>::empty()
        }),
        ItemKind::Enum { variant_count, impl_count } => (if variant_count > 0 {
            seq!["\n**Variants:** "@ + dec_rep(variant_count as int) + " variant(s)"@]
        } else {
            Seq::<Seq<char>>::empty()
        }) + (if impl_count > 0 {
            seq![
                "\n**Implementations:** "@ + dec_rep(impl_count as int) + " impl block(s)"@,
            ]
        } else {
            Seq::<Seq<char>>::empty()
        }),
        ItemKind::Function { is_const, is_async, is_unsafe } => {
            let attrs = function_attrs(is_const, is_async, is_unsafe);
            if attrs.len() == 0 {
                Seq::<Seq<char>>::empty()
            } else {
                seq!["\n**Attributes:** "@ + join_with(attrs, ", "@)]
            }
        },
        ItemKind::Trait { is_auto, is_unsafe, assoc_item_count } => {
            let attrs = trait_attrs(is_auto, is_unsafe);
            (if attrs.len() == 0 {
                Seq::<Seq<char>>::empty()
            } else {
                seq!["\n**Attributes:** "@ + join_with(attrs, ", "@)]
            }) + (if assoc_item_count > 0 {
                seq![
                    "\n**Items:** "@ + dec_rep(assoc_item_count as int)
                        + " associated item(s)"@,
                ]
            } else {
                Seq::<Seq<char>>::empty()
            })
        },
        _ => Seq::<Seq<char>>::empty(),
    }
}

/// The kind-independent sections of a single-item description: name
/// heading, kind line (using the override label when one is supplied),
/// visibility only when not public, full documentation, and a deprecation
/// marker.
pub open spec fn head_sections(it: Item, label_override: Option<Seq<char>>) -> Seq<Seq<char>> {
    (match it.name {
        Some(n) => seq!["# "@ + n@],
        None => Seq::<Seq<char>>::empty(),
    }) + seq![
        "\n**Type:** "@ + (match label_override {
            Some(l) => l,
            None => kind_label_of(it.kind),
        }),
    ] + (if !(it.visibility is Public) {
        seq!["**Visibility:** "@ + visibility_label(it.visibility)]
    } else {
        Seq::<Seq<char>>::empty()
    }) + (match it.docs {
        Some(d) => seq!["\n## Documentation\n"@ + d@],
        None => Seq::<Seq<char>>::empty(),
    }) + (if it.deprecated {
        seq!["\n\u{26A0}\u{FE0F} **Deprecated**"@]
    } else {
        Seq::<Seq<char>>::empty()
    })
}

/// The sections of a single-item description: the kind-independent head,
/// then the kind-specific details.
pub open spec fn describe_sections(it: Item, label_override: Option<Seq<char>>) -> Seq<
    Seq<char>,
> {
    head_sections(it, label_override) + detail_sections(it.kind)
}

/// The full single-item description text.
pub open spec fn describe_text(it: Item, label_override: Option<Seq<char>>) -> Seq<char> {
    join_with(describe_sections(it, label_override), "\n"@)
}

fn visibility_label_str(v: &Visibility) -> (r: &'static str)
    ensures
        r@ == visibility_label(*v),
{
    match v {
        Visibility::Public => "Public",
        Visibility::Default => "Default",
        Visibility::Crate => "Crate",
        Visibility::Restricted => "Restricted",
    }
}

fn struct_kind_label_str(k: &StructKind) -> (r: &'static str)
    ensures
        r@ == struct_kind_label(*k),
{
    match k {
        StructKind::Plain => "plain",
        StructKind::Tuple => "tuple",
        StructKind::Unit => "unit",
    }
}

fn count_section(prefix: &str, count: u64, suffix: &str) -> (s: String)
    ensures
        s@ == prefix@ + dec_rep(count as int) + suffix@,
{
    let mut s = String::from_str(prefix);
    let d = u64_to_dec(count);
    s.append(d.as_str());
    s.append(suffix);
    proof {
        assert(s@ =~= prefix@ + dec_rep(count as int) + suffix@);
    }
    s
}

/// Render one item as text, with an optional kind-label override (used
/// when the item was resolved through the paths table).
#[verifier::rlimit(100)]
pub fn describe(it: &Item, label_override: Option<&str>) -> (r: String)
    ensures
        r@ == describe_text(
            *it,
            match label_override {
                Some(l) => Some(l@),
                None => None,
            },
        ),
{
    let ghost spec_override: Option<Seq<char>> = match label_override {
        Some(l) => Some(l@),
        None => None,
    };
    let mut sections: Vec<String> = Vec::new();
    match &it.name {
        Some(n) => {
            let mut s = String::from_str("# ");
            s.append(n.as_str());
            sections.push(s);
        },
        None => {},
    }
    {
        let mut s = String::from_str("\n**Type:** ");
        match label_override {
            Some(l) => s.append(l),
            None => match &it.kind {
                ItemKind::Module { .. } => s.append("Module"),
                ItemKind::Struct { .. } => s.append("Struct"),
                ItemKind::Enum { .. } => s.append("Enum"),
                ItemKind::Function { .. } => s.append("Function"),
                ItemKind::Trait { .. } => s.append("Trait"),
                ItemKind::Other { label } => s.append(label.as_str()),
            },
        }
        sections.push(s);
    }
    let is_public = match it.visibility {
        Visibility::Public => true,
        _ => false,
    };
    if !is_public {
        let mut s = String::from_str("**Visibility:** ");
        s.append(visibility_label_str(&it.visibility));
        sections.push(s);
    }
    match &it.docs {
        Some(d) => {
            let mut s = String::from_str("\n## Documentation\n");
            s.append(d.as_str());
            sections.push(s);
        },
        None => {},
    }
    if it.deprecated {
        sections.push(String::from_str("\n\u{26A0}\u{FE0F} **Deprecated**"));
    }
    proof {
        assert(sections.deep_view() =~~= head_sections(*it, spec_override));
    }
    match &it.kind {
        ItemKind::Struct { struct_kind, impl_count } => {
            let mut s = String::from_str("\n**Struct Type:** ");
            s.append(struct_kind_label_str(struct_kind));
            sections.push(s);
            if *impl_count > 0 {
                sections.push(
                    count_section("\n**Implementations:** ", *impl_count, " impl block(s)"),
                );
            }
        },
        ItemKind::Enum { variant_count, impl_count } => {
            if *variant_count > 0 {
                sections.push(count_section("\n**Variants:** ", *variant_count, " variant(s)"));
            }
            if *impl_count > 0 {
                sections.push(
                    count_section("\n**Implementations:** ", *impl_count, " impl block(s)"),
                );
            }
        },
        ItemKind::Function { is_const, is_async, is_unsafe } => {
            let mut attrs: Vec<String> = Vec::new();
            if *is_const {
                attrs.push(String::from_str("const"));
            }
            if *is_async {
                attrs.push(String::from_str("async"));
            }
            if *is_unsafe {
                attrs.push(String::from_str("unsafe"));
            }
            proof {
                assert(attrs.deep_view() =~~= function_attrs(*is_const, *is_async, *is_unsafe));
            }
            if attrs.len() > 0 {
                let mut s = String::from_str("\n**Attributes:** ");
                let j = join_strings(&attrs, ", ");
                s.append(j.as_str());
                sections.push(s);
            }
        },
        ItemKind::Trait { is_auto, is_unsafe, assoc_item_count } => {
            let mut attrs: Vec<String> = Vec::new();
            if *is_auto {
                attrs.push(String::from_str("auto"));
            }
            if *is_unsafe {
                attrs.push(String::from_str("unsafe"));
            }
            proof {
                assert(attrs.deep_view() =~~= trait_attrs(*is_auto, *is_unsafe));
            }
            if attrs.len() > 0 {
                let mut s = String::from_str("\n**Attributes:** ");
                let j = join_strings(&attrs, ", ");
                s.append(j.as_str());
                sections.push(s);
            }
            if *assoc_item_count > 0 {
                sections.push(
                    count_section("\n**Items:** ", *assoc_item_count, " associated item(s)"),
                );
            }
        },
        _ => {},
    }
    proof {
        assert(sections.deep_view() =~~= describe_sections(*it, spec_override));
    }
    let out = join_strings(&sections, "\n");
    proof {
        assert(out@ == describe_text(*it, spec_override));
    }
    out
}

proof fn lemma_category_lines_push(doc: Document, children: Seq<u64>, id: u64, cat: Category)
    ensures
        category_lines(doc, children.push(id), cat) == category_lines(doc, children, cat) + (
        if listed(doc, id, cat) {
            seq![entry_line(lookup(doc.index@, id)->0)]
        } else {
            Seq::<Seq<char>>::empty()
        }),
    decreases children.len(),
{
    let w = children.push(id);
    let tail: Seq<Seq<char>> = if listed(doc, id, cat) {
        seq![entry_line(lookup(doc.index@, id)->0)]
    } else {
        Seq::<Seq<char>>::empty()
    };
    if children.len() == 0 {
        assert(w.len() == 1);
        assert(w[0] == id);
        assert(w.drop_first() =~= Seq::<u64>::empty());
        assert(category_lines(doc, Seq::<u64>::empty(), cat) == Seq::<Seq<char>>::empty());
        assert(category_lines(doc, w, cat) =~= Seq::<Seq<char>>::empty() + tail);
    } else {
        assert(w[0] == children[0]);
        assert(w.drop_first() =~= children.drop_first().push(id));
        lemma_category_lines_push(doc, children.drop_first(), id, cat);
        let head: Seq<Seq<char>> = if listed(doc, children[0], cat) {
            seq![entry_line(lookup(doc.index@, children[0])->0)]
        } else {
            Seq::empty()
        };
        assert(category_lines(doc, w, cat) == head + (category_lines(
            doc,
            children.drop_first(),
            cat,
        ) + tail));
        assert(head + (category_lines(doc, children.drop_first(), cat) + tail) =~= (head
            + category_lines(doc, children.drop_first(), cat)) + tail);
    }
}

/// An item that is not public is excluded from every summary category:
/// removing its id from the children leaves every category's lines
/// unchanged. The same holds of an id that does not resolve in the index.
pub proof fn lemma_non_public_excluded(doc: Document, children: Seq<u64>, i: int, cat: Category)
    requires
        0 <= i < children.len(),
        !(lookup(doc.index@, children[i]) matches Some(it) && it.visibility is Public),
    ensures
        category_lines(doc, children, cat) == category_lines(doc, children.remove(i), cat),
    decreases children.len(),
{
    assert(!listed(doc, children[i], cat));
    if i == 0 {
        assert(children.remove(0) =~= children.drop_first());
        assert(category_lines(doc, children, cat) == Seq::<Seq<char>>::empty() + category_lines(
            doc,
            children.drop_first(),
            cat,
        ));
        assert(Seq::<Seq<char>>::empty() + category_lines(doc, children.drop_first(), cat)
            =~= category_lines(doc, children.drop_first(), cat));
    } else {
        let w = children.remove(i);
        assert(w[0] == children[0]);
        assert(w.drop_first() =~= children.drop_first().remove(i - 1));
        assert(children.drop_first()[i - 1] == children[i]);
        lemma_non_public_excluded(doc, children.drop_first(), i - 1, cat);
        assert(w.len() > 0);
    }
}

fn entry_line_exec(it: &Item) -> (s: String)
    requires
        it.name is Some,
    ensures
        s@ == entry_line(*it),
{
    let mut s = String::from_str("- **");
    let n = match &it.name {
        Some(n) => n,
        None => {
            proof {
                assert(false);
            }
            return String::new();
        },
    };
    s.append(n.as_str());
    s.append("**");
    match &it.docs {
        Some(d) => {
            s.append(": ");
            let fl = get_first_line(d.as_str());
            s.append(fl.as_str());
        },
        None => {},
    }
    proof {
        assert(s@ =~= entry_line(*it));
    }
    s
}

fn item_in_category(it: &Item, cat: Category) -> (r: bool)
    ensures
        r == in_category(*it, cat),
{
    match cat {
        Category::Modules => match &it.kind {
            ItemKind::Module { .. } => true,
            _ => false,
        },
        Category::Structs => match &it.kind {
            ItemKind::Struct { .. } => true,
            _ => false,
        },
        Category::Enums => match &it.kind {
            ItemKind::Enum { .. } => true,
            _ => false,
        },
        Category::Traits => match &it.kind {
            ItemKind::Trait { .. } => true,
            _ => false,
        },
        Category::Functions => match &it.kind {
            ItemKind::Function { .. } => true,
            _ => false,
        },
    }
}

fn category_lines_exec(doc: &Document, children: &Vec<u64>, cat: Category) -> (r: Vec<String>)
    ensures
        r.deep_view() == category_lines(*doc, children@, cat),
{
    let mut r: Vec<String> = Vec::new();
    let mut i: usize = 0;
    proof {
        assert(children@.take(0) =~= Seq::<u64>::empty());
        assert(r.deep_view() =~~= category_lines(*doc, children@.take(0), cat));
    }
    while i < children.len()
        invariant
            0 <= i <= children@.len(),
            r.deep_view() =~~= category_lines(*doc, children@.take(i as int), cat),
        decreases children@.len() - i,
    {
        let id = children[i];
        proof {
            assert(children@.take(i as int + 1) =~= children@.take(i as int).push(
                children@[i as int],
            ));
            lemma_category_lines_push(*doc, children@.take(i as int), id, cat);
        }
        match get_item(&doc.index, id) {
            Some(it) => {
                let is_public = match it.visibility {
                    Visibility::Public => true,
                    _ => false,
                };
                if is_public && it.name.is_some() && item_in_category(it, cat) {
                    r.push(entry_line_exec(it));
                }
            },
            None => {},
        }
        proof {
            assert(r.deep_view() =~~= category_lines(*doc, children@.take(i as int + 1), cat));
        }
        i += 1;
    }
    proof {
        assert(children@.take(children@.len() as int) =~= children@);
        assert(r.deep_view() =~~= category_lines(*doc, children@, cat));
    }
    r
}

fn category_heading_str(cat: Category) -> (r: &'static str)
    ensures
        r@ == category_heading(cat),
{
    match cat {
        Category::Modules => "Modules",
        Category::Structs => "Structs",
        Category::Enums => "Enums",
        Category::Traits => "Traits",
        Category::Functions => "Functions",
    }
}

fn category_section_exec(doc: &Document, children: &Vec<u64>, cat: Category) -> (r: Option<
    String,
>)
    requires
        children@ == root_children(*doc),
    ensures
        match r {
            Some(s) => category_section(*doc, cat) == seq![s@],
            None => category_section(*doc, cat) == Seq::<Seq<char>>::empty(),
        },
{
    let lines = category_lines_exec(doc, children, cat);
    if lines.len() == 0 {
        proof {
            assert(category_lines(*doc, root_children(*doc), cat).len() == 0);
        }
        None
    } else {
        let mut s = String::from_str("\n## ");
        s.append(category_heading_str(cat));
        s.append("\n");
        let joined = join_strings(&lines, "\n");
        s.append(joined.as_str());
        proof {
            assert(s@ =~= "\n## "@ + category_heading(cat) + "\n"@ + join_with(
                category_lines(*doc, root_children(*doc), cat),
                "\n"@,
            ));
            assert(category_section(*doc, cat) =~~= seq![s@]);
        }
        Some(s)
    }
}

/// Render the crate summary: resolve the root item, then emit header,
/// root documentation, and the public children of the root module
/// partitioned into category sections. A root identifier absent from the
/// index is the one failure.
#[verifier::rlimit(100)]
pub fn summarize(doc: &Document) -> (r: Result<String, ParseError>)
    ensures
        match r {
            Ok(s) => lookup(doc.index@, doc.root_id) is Some && s@ == summary_text(*doc),
            Err(e) => {
                &&& lookup(doc.index@, doc.root_id) is None
                &&& e matches ParseError::RootNotFound { root_id } && root_id == doc.root_id
            },
        },
{
    let root = match get_item(&doc.index, doc.root_id) {
        Some(it) => it,
        None => {
            return Err(ParseError::RootNotFound { root_id: doc.root_id });
        },
    };
    let mut sections: Vec<String> = Vec::new();
    match &root.name {
        Some(n) => {
            let mut h = String::from_str("# Crate: ");
            h.append(n.as_str());
            match &doc.crate_version {
                Some(v) => {
                    h.append(" v");
                    h.append(v.as_str());
                },
                None => {},
            }
            sections.push(h);
        },
        None => {},
    }
    proof {
        assert(sections.deep_view() =~~= header_section(*doc));
    }
    match &root.docs {
        Some(d) => {
            let mut s = String::from_str("\n## Documentation\n");
            s.append(d.as_str());
            sections.push(s);
        },
        None => {},
    }
    let ghost target0 = header_section(*doc) + docs_section(*doc);
    proof {
        assert(sections.deep_view() =~~= target0);
    }
    let empty_children: Vec<u64> = Vec::new();
    let children: &Vec<u64> = match &root.kind {
        ItemKind::Module { children } => children,
        _ => &empty_children,
    };
    proof {
        assert(children@ == root_children(*doc));
    }
    match category_section_exec(doc, children, Category::Modules) {
        Some(s) => sections.push(s),
        None => {},
    }
    let ghost target1 = target0 + category_section(*doc, Category::Modules);
    proof {
        assert(sections.deep_view() =~~= target1);
    }
    match category_section_exec(doc, children, Category::Structs) {
        Some(s) => sections.push(s),
        None => {},
    }
    let ghost target2 = target1 + category_section(*doc, Category::Structs);
    proof {
        assert(sections.deep_view() =~~= target2);
    }
    match category_section_exec(doc, children, Category::Enums) {
        Some(s) => sections.push(s),
        None => {},
    }
    let ghost target3 = target2 + category_section(*doc, Category::Enums);
    proof {
        assert(sections.deep_view() =~~= target3);
    }
    match category_section_exec(doc, children, Category::Traits) {
        Some(s) => sections.push(s),
        None => {},
    }
    let ghost target4 = target3 + category_section(*doc, Category::Traits);
    proof {
        assert(sections.deep_view() =~~= target4);
    }
    match category_section_exec(doc, children, Category::Functions) {
        Some(s) => sections.push(s),
        None => {},
    }
    let ghost target5 = target4 + category_section(*doc, Category::Functions);
    proof {
        assert(sections.deep_view() =~~= target5);
    }
    let out = join_strings(&sections, "\n");
    proof {
        assert(out@ == summary_text(*doc));
    }
    Ok(out)
}

} // verus!
