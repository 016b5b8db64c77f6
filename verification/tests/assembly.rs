//! The document and its parts, on values written out by hand.

use rust2go_cli::descriptor::{FunctionDescriptor, TraitDescriptor, Transport};
use rust2go_cli::document::{
    compose, embed_header, imports, plan, render, render_imports, Import, Section,
};
use rust2go_cli::transport::{decide, uses, TransportUse};

fn descriptor(ids: &[Option<usize>], tag: &str) -> TraitDescriptor {
    TraitDescriptor {
        functions: ids.iter().map(|id| FunctionDescriptor { mem_call_id: *id }).collect(),
        callbacks: format!("callbacks {tag}\n"),
        interface: format!("interface {tag}\n"),
        exports: format!("exports {tag}\n"),
    }
}

/// The document as one formatted string, written independently of the sections.
fn expected(
    header: &str,
    traits: &[TraitDescriptor],
    structs: &str,
    declarations: &str,
    ring_init: &str,
    without_main: bool,
    go118: bool,
) -> String {
    let use_shm = traits.iter().any(|t| t.functions.iter().any(|f| f.mem_call_id.is_some()));
    let use_cgo = traits.iter().any(|t| t.functions.iter().any(|f| f.mem_call_id.is_none()));
    let mut output = header.to_string();
    traits.iter().for_each(|t| output.push_str(&t.callbacks));
    if use_shm {
        output.push_str(declarations);
    }
    let import_shm = if use_shm {
        "mem_ring \"github.com/ihciah/rust2go/mem-ring\"\n\"github.com/panjf2000/ants/v2\"\n"
    } else {
        ""
    };
    let import_cgo = if use_cgo { "\"runtime\"\n" } else { "" };
    let import_118 = if go118 { "\"reflect\"\n" } else { "" };
    let mut go_content = format!(
        "package main\n\n/*\n{output}*/\nimport \"C\"\nimport (\n\"unsafe\"\n{import_cgo}{import_118}{import_shm})\n"
    );
    traits.iter().for_each(|t| {
        go_content.push_str(&t.interface);
        go_content.push_str(&t.exports);
    });
    go_content.push_str(structs);
    if use_shm {
        go_content.push_str(ring_init);
    }
    if !without_main {
        go_content.push_str("func main() {}\n");
    }
    go_content
}

fn assemble(
    header: &str,
    traits: &Vec<TraitDescriptor>,
    structs: &str,
    without_main: bool,
    go118: bool,
) -> String {
    let embedded = embed_header(header.to_string(), traits, "declarations\n");
    compose(embedded, traits, structs.to_string(), "ring init\n", without_main, go118)
}

#[test]
fn document_with_everything_in_it() {
    let traits = vec![descriptor(&[Some(0)], "a"), descriptor(&[None], "b")];
    let document = assemble("header\n", &traits, "structs\n", false, true);
    assert_eq!(
        document,
        "package main\n\n/*\nheader\ncallbacks a\ncallbacks b\ndeclarations\n*/\nimport \"C\"\n\
         import (\n\"unsafe\"\n\"runtime\"\n\"reflect\"\n\
         mem_ring \"github.com/ihciah/rust2go/mem-ring\"\n\"github.com/panjf2000/ants/v2\"\n)\n\
         interface a\nexports a\ninterface b\nexports b\nstructs\nring init\nfunc main() {}\n"
    );
}

#[test]
fn document_with_nothing_optional_in_it() {
    let traits: Vec<TraitDescriptor> = Vec::new();
    let document = assemble("", &traits, "", true, false);
    assert_eq!(document, "package main\n\n/*\n*/\nimport \"C\"\nimport (\n\"unsafe\"\n)\n");
}

#[test]
fn document_agrees_with_the_formatted_string_on_every_flag() {
    let choices: Vec<Vec<TraitDescriptor>> = vec![
        vec![],
        vec![descriptor(&[], "empty")],
        vec![descriptor(&[Some(0)], "shm")],
        vec![descriptor(&[None], "cgo")],
        vec![descriptor(&[None, Some(0), Some(1)], "mixed")],
        vec![descriptor(&[Some(0)], "first"), descriptor(&[], "second"), descriptor(&[None], "third")],
    ];
    for traits in choices.iter() {
        for without_main in [false, true] {
            for go118 in [false, true] {
                let document = assemble("h\n", traits, "s\n", without_main, go118);
                let wanted =
                    expected("h\n", traits, "s\n", "declarations\n", "ring init\n", without_main, go118);
                assert_eq!(document, wanted);
            }
        }
    }
}

#[test]
fn entry_point_is_there_unless_left_out() {
    let traits = vec![descriptor(&[None], "a")];
    let with = plan("h".to_string(), &traits, "s".to_string(), "r", false, false);
    let without = plan("h".to_string(), &traits, "s".to_string(), "r", true, false);
    assert!(with.contains(&Section::EntryPoint));
    assert_eq!(with.last(), Some(&Section::EntryPoint));
    assert!(!without.contains(&Section::EntryPoint));
    assert_eq!(without.last(), Some(&Section::Structs("s".to_string())));
    assert!(render(&with).ends_with("func main() {}\n"));
    assert!(!render(&without).contains("func main"));
}

#[test]
fn sections_come_in_their_fixed_order() {
    let traits = vec![descriptor(&[Some(0)], "a"), descriptor(&[None], "b")];
    let sections = plan("h".to_string(), &traits, "s".to_string(), "r", false, true);
    assert_eq!(
        sections,
        vec![
            Section::Preamble("h".to_string()),
            Section::Imports(vec![
                Import::Unsafe,
                Import::Runtime,
                Import::Reflect,
                Import::MemRing,
                Import::WorkerPool,
            ]),
            Section::Interface("interface a\n".to_string()),
            Section::Exports("exports a\n".to_string()),
            Section::Interface("interface b\n".to_string()),
            Section::Exports("exports b\n".to_string()),
            Section::Structs("s".to_string()),
            Section::RingInit("r".to_string()),
            Section::EntryPoint,
        ]
    );
}

#[test]
fn ring_set_up_only_with_shared_memory() {
    let direct = vec![descriptor(&[None, None], "a")];
    let sections = plan("h".to_string(), &direct, "s".to_string(), "r", true, false);
    assert_eq!(
        sections,
        vec![
            Section::Preamble("h".to_string()),
            Section::Imports(vec![Import::Unsafe, Import::Runtime]),
            Section::Interface("interface a\n".to_string()),
            Section::Exports("exports a\n".to_string()),
            Section::Structs("s".to_string()),
        ]
    );
    assert_eq!(embed_header("h".to_string(), &direct, "d"), "hcallbacks a\n");
    let shared = vec![descriptor(&[Some(0)], "a")];
    assert_eq!(embed_header("h".to_string(), &shared, "d"), "hcallbacks a\nd");
}

#[test]
fn each_section_renders_its_own_text() {
    assert_eq!(
        Section::Preamble("x\n".to_string()).render(),
        "package main\n\n/*\nx\n*/\nimport \"C\"\n"
    );
    assert_eq!(
        Section::Imports(vec![Import::Unsafe, Import::Reflect]).render(),
        "import (\n\"unsafe\"\n\"reflect\"\n)\n"
    );
    assert_eq!(Section::Imports(vec![]).render(), "import (\n)\n");
    assert_eq!(Section::Interface("i".to_string()).render(), "i");
    assert_eq!(Section::Exports("e".to_string()).render(), "e");
    assert_eq!(Section::Structs("s".to_string()).render(), "s");
    assert_eq!(Section::RingInit("r".to_string()).render(), "r");
    assert_eq!(Section::EntryPoint.render(), "func main() {}\n");
    assert_eq!(render(&Vec::new()), "");
}

#[test]
fn import_lines_are_exact() {
    assert_eq!(Import::Unsafe.text(), "\"unsafe\"\n");
    assert_eq!(Import::Runtime.text(), "\"runtime\"\n");
    assert_eq!(Import::Reflect.text(), "\"reflect\"\n");
    assert_eq!(Import::MemRing.text(), "mem_ring \"github.com/ihciah/rust2go/mem-ring\"\n");
    assert_eq!(Import::WorkerPool.text(), "\"github.com/panjf2000/ants/v2\"\n");
    assert_eq!(
        render_imports(&vec![Import::WorkerPool, Import::Unsafe]),
        "\"github.com/panjf2000/ants/v2\"\n\"unsafe\"\n"
    );
    assert_eq!(render_imports(&Vec::new()), "");
}

#[test]
fn imports_follow_the_decisions() {
    for shared_memory in [false, true] {
        for direct_call in [false, true] {
            for legacy in [false, true] {
                let list = imports(TransportUse { shared_memory, direct_call }, legacy);
                assert_eq!(list[0], Import::Unsafe);
                assert_eq!(list.contains(&Import::Runtime), direct_call);
                assert_eq!(list.contains(&Import::Reflect), legacy);
                assert_eq!(list.contains(&Import::MemRing), shared_memory);
                assert_eq!(list.contains(&Import::WorkerPool), shared_memory);
            }
        }
    }
    assert_eq!(
        imports(TransportUse { shared_memory: true, direct_call: true }, true),
        vec![Import::Unsafe, Import::Runtime, Import::Reflect, Import::MemRing, Import::WorkerPool]
    );
}

#[test]
fn transports_are_decided_over_all_functions_of_all_traits() {
    let none: Vec<TraitDescriptor> = Vec::new();
    assert_eq!(decide(&none), TransportUse { shared_memory: false, direct_call: false });
    let empty = vec![descriptor(&[], "a"), descriptor(&[], "b")];
    assert_eq!(decide(&empty), TransportUse { shared_memory: false, direct_call: false });
    let shared = vec![descriptor(&[], "a"), descriptor(&[Some(0), Some(1)], "b")];
    assert_eq!(decide(&shared), TransportUse { shared_memory: true, direct_call: false });
    let direct = vec![descriptor(&[None], "a")];
    assert_eq!(decide(&direct), TransportUse { shared_memory: false, direct_call: true });
    let late = vec![descriptor(&[None, None], "a"), descriptor(&[None, Some(0)], "b")];
    assert_eq!(decide(&late), TransportUse { shared_memory: true, direct_call: true });
    assert!(uses(&late, Transport::SharedMemory));
    assert!(!uses(&direct, Transport::SharedMemory));
    assert!(late[1].has(Transport::SharedMemory));
    assert!(!late[0].has(Transport::SharedMemory));
    assert!(late[0].has(Transport::DirectCall));
}

#[test]
fn identifier_selects_the_transport() {
    assert_eq!(FunctionDescriptor { mem_call_id: Some(7) }.transport(), Transport::SharedMemory);
    assert_eq!(FunctionDescriptor { mem_call_id: Some(0) }.transport(), Transport::SharedMemory);
    assert_eq!(FunctionDescriptor { mem_call_id: None }.transport(), Transport::DirectCall);
}
