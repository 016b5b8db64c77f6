use vstd::prelude::*;
use crate::descriptor::{TraitDescriptor, TraitView, trait_views};
use crate::transport::{TransportUse, decide, transport_use};

verus! {

/// A package that the generated file may import.
#[derive(Debug, Clone, Copy, PartialEq, Eq, Structural)]
pub enum Import {
    /// The base package for foreign calls; always imported.
    Unsafe,
    /// The runtime package that direct calls need.
    Runtime,
    /// The reflection package that the older toolchain needs.
    Reflect,
    /// The shared-memory ring transport.
    MemRing,
    /// The worker pool that serves the rings.
    WorkerPool,
}

impl Import {
    /// The line that imports the package, with its line break.
    pub open spec fn line(self) -> Seq<char> {
        match self {
            Import::Unsafe => "\"unsafe\"\n"@,
            Import::Runtime => "\"runtime\"\n"@,
            Import::Reflect => "\"reflect\"\n"@,
            Import::MemRing => "mem_ring \"github.com/ihciah/rust2go/mem-ring\"\n"@,
            Import::WorkerPool => "\"github.com/panjf2000/ants/v2\"\n"@,
        }
    }

    /// The line that imports the package, with its line break.
    pub fn text(&self) -> (text: &'static str)
        ensures
            text@ == self.line(),
    {
        match self {
            Import::Unsafe => "\"unsafe\"\n",
            Import::Runtime => "\"runtime\"\n",
            Import::Reflect => "\"reflect\"\n",
            Import::MemRing => "mem_ring \"github.com/ihciah/rust2go/mem-ring\"\n",
            Import::WorkerPool => "\"github.com/panjf2000/ants/v2\"\n",
        }
    }
}

/// The given items where the condition holds, nothing where it does not.
pub open spec fn only_if<T>(condition: bool, items: Seq<T>) -> Seq<T> {
    if condition {
        items
    } else {
        Seq::empty()
    }
}

/// The packages to import, in the order of their lines: the base package
/// always, the runtime for direct calls, reflection for the older toolchain,
/// the ring transport and its worker pool for shared memory.
pub open spec fn import_list(usage: TransportUse, legacy: bool) -> Seq<Import> {
    seq![Import::Unsafe] + only_if(usage.direct_call, seq![Import::Runtime]) + only_if(
        legacy,
        seq![Import::Reflect],
    ) + only_if(usage.shared_memory, seq![Import::MemRing, Import::WorkerPool])
}

/// The lines of the given imports, one after the other.
pub open spec fn import_lines(list: Seq<Import>) -> Seq<char>
    decreases list.len(),
{
    if list.len() == 0 {
        Seq::empty()
    } else {
        import_lines(list.drop_last()) + list.last().line()
    }
}

/// One piece of the generated file.
#[derive(Debug, Clone, PartialEq, Eq)]
pub enum Section {
    /// The package clause and the comment that embeds the C header, closed
    /// by the import of the pseudo package that reads it.
    Preamble(String),
    /// The import block.
    Imports(Vec<Import>),
    /// The Go interface of one trait.
    Interface(String),
    /// The exported bridge functions of one trait.
    Exports(String),
    /// The struct definitions.
    Structs(String),
    /// The function that sets the shared-memory rings up.
    RingInit(String),
    /// The empty entry point.
    EntryPoint,
}

/// Mathematical value of [`Section`].
pub enum SectionView {
    Preamble(Seq<char>),
    Imports(Seq<Import>),
    Interface(Seq<char>),
    Exports(Seq<char>),
    Structs(Seq<char>),
    RingInit(Seq<char>),
    EntryPoint,
}

impl View for Section {
    type V = SectionView;

    open spec fn view(&self) -> SectionView {
        match self {
            Section::Preamble(header) => SectionView::Preamble(header@),
            Section::Imports(list) => SectionView::Imports(list@),
            Section::Interface(text) => SectionView::Interface(text@),
            Section::Exports(text) => SectionView::Exports(text@),
            Section::Structs(text) => SectionView::Structs(text@),
            Section::RingInit(text) => SectionView::RingInit(text@),
            Section::EntryPoint => SectionView::EntryPoint,
        }
    }
}

impl SectionView {
    /// The text of the section as it stands in the file.
    pub open spec fn text(self) -> Seq<char> {
        match self {
            SectionView::Preamble(header) => "package main\n\n/*\n"@ + header + "*/\nimport \"C\"\n"@,
            SectionView::Imports(list) => "import (\n"@ + import_lines(list) + ")\n"@,
            SectionView::Interface(text) => text,
            SectionView::Exports(text) => text,
            SectionView::Structs(text) => text,
            SectionView::RingInit(text) => text,
            SectionView::EntryPoint => "func main() {}\n"@,
        }
    }

    /// The section belongs to a trait: an interface or its exports.
    pub open spec fn of_trait(self) -> bool {
        self is Interface || self is Exports
    }
}

/// The values of a sequence of sections, in the same order.
pub open spec fn section_views(sections: Seq<Section>) -> Seq<SectionView> {
    Seq::new(sections.len(), |i: int| sections[i]@)
}

/// The texts of the given sections, one after the other.
pub open spec fn sections_text(sections: Seq<SectionView>) -> Seq<char>
    decreases sections.len(),
{
    if sections.len() == 0 {
        Seq::empty()
    } else {
        sections_text(sections.drop_last()) + sections.last().text()
    }
}

/// The callback declarations of all traits, in the order of the traits.
pub open spec fn callbacks_text(traits: Seq<TraitView>) -> Seq<char>
    decreases traits.len(),
{
    if traits.len() == 0 {
        Seq::empty()
    } else {
        callbacks_text(traits.drop_last()) + traits.last().callbacks
    }
}

/// The header that the document embeds: the synthesized header, then the
/// callbacks of every trait, then the shared-memory declarations where some
/// function uses shared memory.
pub open spec fn embedded_header(
    header: Seq<char>,
    traits: Seq<TraitView>,
    declarations: Seq<char>,
) -> Seq<char> {
    header + callbacks_text(traits) + only_if(
        transport_use(traits).shared_memory,
        declarations,
    )
}

/// For each trait in order, its interface and then its exports.
pub open spec fn trait_sections(traits: Seq<TraitView>) -> Seq<SectionView>
    decreases traits.len(),
{
    if traits.len() == 0 {
        Seq::empty()
    } else {
        trait_sections(traits.drop_last()) + seq![
            SectionView::Interface(traits.last().interface),
            SectionView::Exports(traits.last().exports),
        ]
    }
}

/// The sections of the document in their fixed order: preamble, imports, the
/// traits, the structs, the ring set-up where shared memory is in use, and
/// the entry point unless it is left out.
pub open spec fn document_sections(
    header: Seq<char>,
    traits: Seq<TraitView>,
    structs: Seq<char>,
    ring_init: Seq<char>,
    without_main: bool,
    legacy: bool,
) -> Seq<SectionView> {
    seq![
        SectionView::Preamble(header),
        SectionView::Imports(import_list(transport_use(traits), legacy)),
    ] + trait_sections(traits) + seq![SectionView::Structs(structs)] + only_if(
        transport_use(traits).shared_memory,
        seq![SectionView::RingInit(ring_init)],
    ) + only_if(!without_main, seq![SectionView::EntryPoint])
}

/// The text of the document.
pub open spec fn document_text(
    header: Seq<char>,
    traits: Seq<TraitView>,
    structs: Seq<char>,
    ring_init: Seq<char>,
    without_main: bool,
    legacy: bool,
) -> Seq<char> {
    sections_text(document_sections(header, traits, structs, ring_init, without_main, legacy))
}

/// The packages to import for the given transports and toolchain.
pub fn imports(usage: TransportUse, legacy: bool) -> (list: Vec<Import>)
    ensures
        list@ == import_list(usage, legacy),
{
    let mut list: Vec<Import> = Vec::new();
    list.push(Import::Unsafe);
    if usage.direct_call {
        list.push(Import::Runtime);
    }
    if legacy {
        list.push(Import::Reflect);
    }
    if usage.shared_memory {
        list.push(Import::MemRing);
        list.push(Import::WorkerPool);
    }
    assert(list@ =~= import_list(usage, legacy));
    list
}

/// Appends the callbacks of every trait to the synthesized header, and the
/// shared-memory declarations where some function uses shared memory.
pub fn embed_header(header: String, traits: &Vec<TraitDescriptor>, declarations: &str) -> (text:
    String)
    ensures
        text@ == embedded_header(header@, trait_views(traits@), declarations@),
{
    let ghost views = trait_views(traits@);
    let mut text = header;
    let mut i: usize = 0;
    while i < traits.len()
        invariant
            i <= traits.len(),
            views == trait_views(traits@),
            text@ == header@ + callbacks_text(views.take(i as int)),
        decreases traits.len() - i,
    {
        proof {
            let next = views.take(i + 1);
            assert(next.drop_last() =~= views.take(i as int));
            assert(next.last() == traits@[i as int]@);
            assert(header@ + (callbacks_text(views.take(i as int)) + traits@[i as int]@.callbacks)
                =~= header@ + callbacks_text(views.take(i as int)) + traits@[i as int]@.callbacks);
        }
        text.append(traits[i].callbacks.as_str());
        i = i + 1;
    }
    assert(views.take(traits.len() as int) =~= views);
    let usage = decide(traits);
    if usage.shared_memory {
        text.append(declarations);
    } else {
        assert(text@ + Seq::<char>::empty() =~= text@);
    }
    text
}

/// Lays the sections of the document out in their fixed order.
pub fn plan(
    header: String,
    traits: &Vec<TraitDescriptor>,
    structs: String,
    ring_init: &str,
    without_main: bool,
    legacy: bool,
) -> (sections: Vec<Section>)
    ensures
        section_views(sections@) == document_sections(
            header@,
            trait_views(traits@),
            structs@,
            ring_init@,
            without_main,
            legacy,
        ),
{
    let ghost views = trait_views(traits@);
    let ghost head = seq![
        SectionView::Preamble(header@),
        SectionView::Imports(import_list(transport_use(views), legacy)),
    ];
    let usage = decide(traits);
    let mut sections: Vec<Section> = Vec::new();
    sections.push(Section::Preamble(header));
    sections.push(Section::Imports(imports(usage, legacy)));
    assert(section_views(sections@) =~= head + trait_sections(views.take(0)));
    let mut i: usize = 0;
    while i < traits.len()
        invariant
            i <= traits.len(),
            views == trait_views(traits@),
            section_views(sections@) == head + trait_sections(views.take(i as int)),
        decreases traits.len() - i,
    {
        let ghost before = sections@;
        sections.push(Section::Interface(traits[i].interface.clone()));
        sections.push(Section::Exports(traits[i].exports.clone()));
        proof {
            let next = views.take(i + 1);
            assert(next.drop_last() =~= views.take(i as int));
            assert(next.last() == traits@[i as int]@);
            assert(section_views(sections@) =~= section_views(before) + seq![
                SectionView::Interface(traits@[i as int]@.interface),
                SectionView::Exports(traits@[i as int]@.exports),
            ]);
            assert(section_views(sections@) =~= head + trait_sections(next));
        }
        i = i + 1;
    }
    assert(views.take(traits.len() as int) =~= views);
    let ghost upto_traits = section_views(sections@);
    sections.push(Section::Structs(structs));
    if usage.shared_memory {
        sections.push(Section::RingInit(String::from_str(ring_init)));
    }
    if !without_main {
        sections.push(Section::EntryPoint);
    }
    assert(section_views(sections@) =~= upto_traits + seq![SectionView::Structs(structs@)]
        + only_if(usage.shared_memory, seq![SectionView::RingInit(ring_init@)]) + only_if(
        !without_main,
        seq![SectionView::EntryPoint],
    ));
    sections
}

/// The lines of the given imports as one string.
pub fn render_imports(list: &Vec<Import>) -> (text: String)
    ensures
        text@ == import_lines(list@),
{
    let mut text = String::new();
    let mut i: usize = 0;
    while i < list.len()
        invariant
            i <= list.len(),
            text@ == import_lines(list@.take(i as int)),
        decreases list.len() - i,
    {
        proof {
            let next = list@.take(i + 1);
            assert(next.drop_last() =~= list@.take(i as int));
            assert(next.last() == list@[i as int]);
        }
        text.append(list[i].text());
        i = i + 1;
    }
    assert(list@.take(list.len() as int) =~= list@);
    text
}

impl Section {
    /// The text of the section as it stands in the file.
    pub fn render(&self) -> (text: String)
        ensures
            text@ == self@.text(),
    {
        match self {
            Section::Preamble(header) => {
                let mut text = String::from_str("package main\n\n/*\n");
                text.append(header.as_str());
                text.append("*/\nimport \"C\"\n");
                text
            },
            Section::Imports(list) => {
                let lines = render_imports(list);
                let mut text = String::from_str("import (\n");
                text.append(lines.as_str());
                text.append(")\n");
                text
            },
            Section::Interface(body) => body.clone(),
            Section::Exports(body) => body.clone(),
            Section::Structs(body) => body.clone(),
            Section::RingInit(body) => body.clone(),
            Section::EntryPoint => String::from_str("func main() {}\n"),
        }
    }
}

/// The texts of the given sections as one string.
pub fn render(sections: &Vec<Section>) -> (text: String)
    ensures
        text@ == sections_text(section_views(sections@)),
{
    let ghost views = section_views(sections@);
    let mut text = String::new();
    let mut i: usize = 0;
    while i < sections.len()
        invariant
            i <= sections.len(),
            views == section_views(sections@),
            text@ == sections_text(views.take(i as int)),
        decreases sections.len() - i,
    {
        proof {
            let next = views.take(i + 1);
            assert(next.drop_last() =~= views.take(i as int));
            assert(next.last() == sections@[i as int]@);
        }
        let piece = sections[i].render();
        text.append(piece.as_str());
        i = i + 1;
    }
    assert(views.take(sections.len() as int) =~= views);
    text
}

/// Assembles the document from the header to embed, the traits, the struct
/// definitions and the ring set-up block.
pub fn compose(
    header: String,
    traits: &Vec<TraitDescriptor>,
    structs: String,
    ring_init: &str,
    without_main: bool,
    legacy: bool,
) -> (text: String)
    ensures
        text@ == document_text(
            header@,
            trait_views(traits@),
            structs@,
            ring_init@,
            without_main,
            legacy,
        ),
{
    let sections = plan(header, traits, structs, ring_init, without_main, legacy);
    render(&sections)
}

/// The interfaces and exports of all traits as text, in the order of the traits.
pub open spec fn traits_text(traits: Seq<TraitView>) -> Seq<char>
    decreases traits.len(),
{
    if traits.len() == 0 {
        Seq::empty()
    } else {
        traits_text(traits.drop_last()) + traits.last().interface + traits.last().exports
    }
}

/// Which imports a document has: the base package always; the runtime
/// exactly when some function carries no memory-call identifier; the ring
/// transport and the worker pool exactly when some function carries one;
/// reflection exactly for the older toolchain.
pub proof fn lemma_import_inclusion(traits: Seq<TraitView>, legacy: bool)
    ensures
        import_list(transport_use(traits), legacy).contains(Import::Unsafe),
        import_list(transport_use(traits), legacy).contains(Import::Runtime) <==> (exists|
            i: int,
            j: int,
        |
            0 <= i < traits.len() && 0 <= j < traits[i].functions.len() && (
            #[trigger] traits[i].functions[j]).mem_call_id.is_none()),
        import_list(transport_use(traits), legacy).contains(Import::MemRing) <==> (exists|
            i: int,
            j: int,
        |
            0 <= i < traits.len() && 0 <= j < traits[i].functions.len() && (
            #[trigger] traits[i].functions[j]).mem_call_id.is_some()),
        import_list(transport_use(traits), legacy).contains(Import::WorkerPool)
            <==> import_list(transport_use(traits), legacy).contains(Import::MemRing),
        import_list(transport_use(traits), legacy).contains(Import::Reflect) <==> legacy,
{
    crate::transport::lemma_transport_by_identifier(traits);
    lemma_import_list(transport_use(traits), legacy);
}

/// Which imports a list has, by the decisions it was made from.
pub proof fn lemma_import_list(usage: TransportUse, legacy: bool)
    ensures
        import_list(usage, legacy).contains(Import::Unsafe),
        import_list(usage, legacy).contains(Import::Runtime) <==> usage.direct_call,
        import_list(usage, legacy).contains(Import::Reflect) <==> legacy,
        import_list(usage, legacy).contains(Import::MemRing) <==> usage.shared_memory,
        import_list(usage, legacy).contains(Import::WorkerPool) <==> usage.shared_memory,
{
    let list = import_list(usage, legacy);
    let direct: int = if usage.direct_call { 1 } else { 0 };
    let reflect: int = if legacy { 1 } else { 0 };
    assert(list[0] == Import::Unsafe);
    if usage.direct_call {
        assert(list[1] == Import::Runtime);
    }
    if legacy {
        assert(list[1 + direct] == Import::Reflect);
    }
    if usage.shared_memory {
        assert(list[1 + direct + reflect] == Import::MemRing);
        assert(list[2 + direct + reflect] == Import::WorkerPool);
    }
}

/// Every section that the traits contribute is an interface or its exports.
pub proof fn lemma_trait_sections_kind(traits: Seq<TraitView>)
    ensures
        trait_sections(traits).len() == 2 * traits.len(),
        forall|k: int|
            0 <= k < trait_sections(traits).len() ==> (#[trigger] trait_sections(
                traits,
            )[k]).of_trait(),
    decreases traits.len(),
{
    if traits.len() > 0 {
        lemma_trait_sections_kind(traits.drop_last());
    }
}

/// Which sections a document has. It opens with the preamble and the import
/// block, which are the only ones of their kind. The struct definitions are
/// always there. The ring set-up is there exactly when some function uses
/// shared memory. The entry point is there exactly when it is not left out,
/// and then it closes the document.
pub proof fn lemma_section_presence(
    header: Seq<char>,
    traits: Seq<TraitView>,
    structs: Seq<char>,
    ring_init: Seq<char>,
    without_main: bool,
    legacy: bool,
)
    ensures
        ({
            let sections = document_sections(
                header,
                traits,
                structs,
                ring_init,
                without_main,
                legacy,
            );
            &&& sections.len() >= 3
            &&& sections[0] == SectionView::Preamble(header)
            &&& sections[1] == SectionView::Imports(import_list(transport_use(traits), legacy))
            &&& forall|k: int|
                2 <= k < sections.len() ==> !(#[trigger] sections[k] is Preamble) && !(
                sections[k] is Imports)
            &&& sections.contains(SectionView::Structs(structs))
            &&& sections.contains(SectionView::RingInit(ring_init)) <==> transport_use(
                traits,
            ).shared_memory
            &&& (exists|k: int| 0 <= k < sections.len() && #[trigger] sections[k] is RingInit)
                <==> transport_use(traits).shared_memory
            &&& sections.contains(SectionView::EntryPoint) <==> !without_main
            &&& !without_main ==> sections.last() == SectionView::EntryPoint
        }),
{
    let sections = document_sections(header, traits, structs, ring_init, without_main, legacy);
    let shared = transport_use(traits).shared_memory;
    let n: int = 2 + 2 * (traits.len() as int);
    let ring: int = if shared { 1 } else { 0 };
    lemma_trait_sections_kind(traits);
    assert forall|k: int| 2 <= k < n implies (#[trigger] sections[k]).of_trait() by {
        assert(sections[k] == trait_sections(traits)[k - 2]);
    }
    assert(sections[n] == SectionView::Structs(structs));
    if shared {
        assert(sections[n + 1] == SectionView::RingInit(ring_init));
    }
    if !without_main {
        assert(sections[n + 1 + ring] == SectionView::EntryPoint);
    }
}

/// The text of two runs of sections is the text of the first followed by the
/// text of the second.
pub proof fn lemma_sections_text_concat(first: Seq<SectionView>, second: Seq<SectionView>)
    ensures
        sections_text(first + second) == sections_text(first) + sections_text(second),
    decreases second.len(),
{
    if second.len() == 0 {
        assert(first + second =~= first);
        assert(sections_text(first) + Seq::<char>::empty() =~= sections_text(first));
    } else {
        lemma_sections_text_concat(first, second.drop_last());
        assert((first + second).drop_last() =~= first + second.drop_last());
        assert((first + second).last() == second.last());
        assert(sections_text(first) + sections_text(second.drop_last()) + second.last().text()
            =~= sections_text(first) + (sections_text(second.drop_last()) + second.last().text()));
    }
}

/// The text of a single section.
pub proof fn lemma_sections_text_one(section: SectionView)
    ensures
        sections_text(seq![section]) == section.text(),
{
    let one = seq![section];
    assert(one.last() == section);
    assert(one.drop_last() =~= Seq::<SectionView>::empty());
    assert(sections_text(one.drop_last()) == Seq::<char>::empty());
    assert(sections_text(one) == sections_text(one.drop_last()) + one.last().text());
    assert(Seq::<char>::empty() + section.text() =~= section.text());
}

/// The sections of the traits read, as text, interface and exports of each
/// trait in turn.
pub proof fn lemma_trait_sections_text(traits: Seq<TraitView>)
    ensures
        sections_text(trait_sections(traits)) == traits_text(traits),
    decreases traits.len(),
{
    if traits.len() > 0 {
        let last = traits.last();
        let interface = SectionView::Interface(last.interface);
        let exports = SectionView::Exports(last.exports);
        lemma_trait_sections_text(traits.drop_last());
        assert(seq![interface, exports] =~= seq![interface] + seq![exports]);
        lemma_sections_text_concat(seq![interface], seq![exports]);
        lemma_sections_text_one(interface);
        lemma_sections_text_one(exports);
        lemma_sections_text_concat(trait_sections(traits.drop_last()), seq![interface, exports]);
        assert(traits_text(traits.drop_last()) + (last.interface + last.exports) =~= traits_text(
            traits.drop_last(),
        ) + last.interface + last.exports);
    }
}

/// The document as one concatenation: the preamble with the embedded header,
/// the import block, interface and exports of each trait, the struct
/// definitions, the ring set-up where shared memory is in use, and the entry
/// point unless it is left out.
pub proof fn lemma_document_text(
    header: Seq<char>,
    traits: Seq<TraitView>,
    structs: Seq<char>,
    ring_init: Seq<char>,
    without_main: bool,
    legacy: bool,
)
    ensures
        document_text(header, traits, structs, ring_init, without_main, legacy) == (
        "package main\n\n/*\n"@ + header + "*/\nimport \"C\"\n"@) + ("import (\n"@ + import_lines(
            import_list(transport_use(traits), legacy),
        ) + ")\n"@) + traits_text(traits) + structs + only_if(
            transport_use(traits).shared_memory,
            ring_init,
        ) + only_if(!without_main, "func main() {}\n"@),
{
    let preamble = SectionView::Preamble(header);
    let imports = SectionView::Imports(import_list(transport_use(traits), legacy));
    let body = SectionView::Structs(structs);
    let ring = only_if(transport_use(traits).shared_memory, seq![SectionView::RingInit(ring_init)]);
    let entry = only_if(!without_main, seq![SectionView::EntryPoint]);
    let head = seq![preamble, imports];
    assert(head =~= seq![preamble] + seq![imports]);
    lemma_sections_text_one(preamble);
    lemma_sections_text_one(imports);
    lemma_sections_text_one(body);
    lemma_sections_text_one(SectionView::RingInit(ring_init));
    lemma_sections_text_one(SectionView::EntryPoint);
    lemma_sections_text_concat(seq![preamble], seq![imports]);
    lemma_trait_sections_text(traits);
    lemma_sections_text_concat(head, trait_sections(traits));
    lemma_sections_text_concat(head + trait_sections(traits), seq![body]);
    lemma_sections_text_concat(head + trait_sections(traits) + seq![body], ring);
    lemma_sections_text_concat(head + trait_sections(traits) + seq![body] + ring, entry);
    assert(sections_text(Seq::<SectionView>::empty()) == Seq::<char>::empty());
    assert(sections_text(ring) == only_if(transport_use(traits).shared_memory, ring_init));
    assert(sections_text(entry) == only_if(!without_main, "func main() {}\n"@));
}

} // verus!
