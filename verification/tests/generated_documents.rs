//! Whole runs over source descriptions, with the real text generators.

use rust2go_cli::blocks::ShmBlocks;
use rust2go_cli::config::Args;
use rust2go_cli::descriptor::{FunctionDescriptor, TraitDescriptor};
use rust2go_cli::mapping::{NameEntry, NameMapping};
use rust2go_cli::pipeline::{advance, begin, Action, Event, Progress};
use rust2go_common::raw_file::RawRsFile;

const HEADER: &str = "#include <stdint.h>\n";

const ONE_STRUCT: &str = r#"
pub struct DemoUser {
    pub id: u32,
    pub age: u8,
}
"#;

const SHARED_MEMORY_ONLY: &str = r#"
pub struct DemoUser {
    pub name: String,
    pub age: u8,
}
pub trait DemoCall {
    #[mem]
    fn demo_oneway(req: &DemoUser);
}
"#;

const BOTH_TRANSPORTS: &str = r#"
pub struct DemoUser {
    pub name: String,
    pub age: u8,
}
pub struct DemoResponse {
    pub pass: bool,
}
pub trait DemoCall {
    #[mem]
    fn demo_oneway(req: &DemoUser);
    fn demo_check(req: &DemoUser) -> DemoResponse;
}
"#;

struct Model {
    mapping: NameMapping,
    reference: String,
    traits: Vec<TraitDescriptor>,
    structs: String,
}

fn model_of(source: &str, go118: bool) -> Model {
    let raw = RawRsFile::new(source);
    let (names, reference) = raw.convert_structs_to_ref().unwrap();
    let mut entries: Vec<NameEntry> = names
        .iter()
        .map(|(identifier, symbol)| NameEntry {
            identifier: identifier.to_string(),
            symbol: symbol.to_string(),
        })
        .collect();
    entries.sort_by(|a, b| a.identifier.cmp(&b.identifier));
    let levels = raw.convert_structs_levels().unwrap();
    let traits = raw
        .convert_trait()
        .unwrap()
        .iter()
        .map(|t| TraitDescriptor {
            functions: t
                .fns()
                .iter()
                .map(|f| FunctionDescriptor { mem_call_id: f.mem_call_id() })
                .collect(),
            callbacks: t.generate_c_callbacks(),
            interface: t.generate_go_interface(),
            exports: t.generate_go_exports(&levels),
        })
        .collect();
    let structs = raw.convert_structs_to_go(&levels, go118).unwrap();
    Model { mapping: NameMapping { entries }, reference: reference.to_string(), traits, structs }
}

/// Plays a run in which every action succeeds and returns the committed document.
fn generate(args: &Args, source: &str) -> String {
    let blocks = ShmBlocks::load();
    let model = model_of(source, args.go118);
    let (state, action) = begin(args);
    assert_eq!(action, Action::ReadSource(args.src.clone()));
    let (state, action) = advance(args, &blocks, state, Event::SourceRead(source.to_string()));
    assert_eq!(action, Action::ParseSource(source.to_string()));
    let (state, action) = advance(args, &blocks, state, Event::Parsed);
    assert_eq!(action, Action::ConvertToReference);
    let reference = model.reference.clone();
    let symbols: Vec<String> = model.mapping.entries.iter().map(|e| e.symbol.clone()).collect();
    let (state, action) =
        advance(args, &blocks, state, Event::ReferenceConverted(model.mapping, model.reference));
    assert_eq!(action, Action::WriteDestination { path: args.dst.clone(), content: reference });
    let (state, action) = advance(args, &blocks, state, Event::Written);
    assert_eq!(
        action,
        Action::SynthesizeHeader {
            path: args.dst.clone(),
            symbols,
            banner: "// Generated by rust2go. Please DO NOT edit this C part manually."
                .to_string(),
        }
    );
    let (state, action) =
        advance(args, &blocks, state, Event::HeaderSynthesized(HEADER.as_bytes().to_vec()));
    assert_eq!(action, Action::ExtractTraits);
    let (state, action) = advance(args, &blocks, state, Event::TraitsExtracted(model.traits));
    assert_eq!(action, Action::EmitStructs(args.go118));
    let (state, action) = advance(args, &blocks, state, Event::StructsEmitted(model.structs));
    let document = match action {
        Action::WriteDestination { path, content } => {
            assert_eq!(path, args.dst);
            content
        }
        other => panic!("unexpected action {:?}", other),
    };
    assert_eq!(state, Progress::Committing);
    let (state, action) = advance(args, &blocks, state, Event::Written);
    if args.no_fmt {
        assert_eq!((state, action), (Progress::Committed, Action::Stop));
    } else {
        assert_eq!((&state, &action), (&Progress::Formatting, &Action::Format(args.dst.clone())));
        let (state, action) = advance(args, &blocks, state, Event::Formatted(0));
        assert_eq!((state, action), (Progress::Committed, Action::Stop));
    }
    document
}

fn args(without_main: bool, go118: bool, no_fmt: bool) -> Args {
    Args { src: "demo.rs".to_string(), dst: "demo.go".to_string(), without_main, go118, no_fmt }
}

#[test]
fn struct_without_traits_needs_no_transport() {
    let mut config = Args::resolve("demo.rs".to_string(), "demo.go".to_string()).unwrap();
    config.no_fmt = false;
    let document = generate(&config, ONE_STRUCT);
    assert!(document.contains("type DemoUser struct {\n    id uint32\n    age uint8\n}\n"));
    assert!(document.ends_with("func main() {}\n"));
    assert!(document.contains("import (\n\"unsafe\"\n)\n"));
    assert!(!document.contains("\"runtime\"\n"));
    assert!(!document.contains("mem_ring"));
    assert!(!document.contains("github.com/panjf2000/ants/v2"));
    assert!(!document.contains("\"reflect\"\n"));
    assert!(!document.contains(RawRsFile::go_shm_ring_init()));
    assert!(document.starts_with("package main\n\n/*\n#include <stdint.h>\n*/\nimport \"C\"\n"));
}

#[test]
fn shared_memory_function_without_entry_point() {
    let document = generate(&args(true, false, true), SHARED_MEMORY_ONLY);
    assert!(!document.contains("func main() {}"));
    assert!(document.contains(
        "import (\n\"unsafe\"\nmem_ring \"github.com/ihciah/rust2go/mem-ring\"\n\"github.com/panjf2000/ants/v2\"\n)\n"
    ));
    assert!(!document.contains("\"runtime\"\n"));
    assert!(document.ends_with(RawRsFile::go_shm_ring_init()));
    let embedded = format!("/*\n{}{}*/\n", HEADER, RawRsFile::go_shm_include());
    assert!(document.contains(&embedded));
    assert!(document.contains("func ringHandleDemoCall0("));
    assert!(document.contains("type DemoCall interface {\n"));
}

#[test]
fn mixed_functions_import_both_transports() {
    let document = generate(&args(false, false, true), BOTH_TRANSPORTS);
    assert!(document.contains(
        "import (\n\"unsafe\"\n\"runtime\"\nmem_ring \"github.com/ihciah/rust2go/mem-ring\"\n\"github.com/panjf2000/ants/v2\"\n)\n"
    ));
    let ring = document.find(RawRsFile::go_shm_ring_init()).unwrap();
    let structs = document.find("type DemoUser struct {").unwrap();
    let interface = document.find("type DemoCall interface {").unwrap();
    let imports = document.find("import (\n").unwrap();
    assert!(imports < interface && interface < structs && structs < ring);
    assert!(document.ends_with("func main() {}\n"));
    assert!(document.contains("DemoCall_demo_check_cb"));
}

#[test]
fn older_toolchain_imports_reflection_without_traits() {
    let document = generate(&args(false, true, true), ONE_STRUCT);
    assert!(document.contains("import (\n\"unsafe\"\n\"reflect\"\n)\n"));
    assert!(document.contains("reflect.SliceHeader"));
    let newer = generate(&args(false, false, true), ONE_STRUCT);
    assert!(!newer.contains("reflect"));
}

#[test]
fn same_input_gives_the_same_bytes() {
    let config = args(false, false, true);
    let first = generate(&config, BOTH_TRANSPORTS);
    let second = generate(&config, BOTH_TRANSPORTS);
    assert_eq!(first.as_bytes(), second.as_bytes());
}

#[test]
fn whitelist_holds_the_symbols_of_the_mapping() {
    let model = model_of(BOTH_TRANSPORTS, false);
    let symbols = model.mapping.symbols();
    assert_eq!(
        symbols,
        vec![
            "DemoResponseRef".to_string(),
            "DemoUserRef".to_string(),
            "StringRef".to_string(),
            "ListRef".to_string(),
        ]
    );
}

#[test]
fn blocks_come_from_the_generator() {
    let blocks = ShmBlocks::load();
    assert_eq!(blocks.declarations, RawRsFile::go_shm_include());
    assert_eq!(blocks.ring_init, RawRsFile::go_shm_ring_init());
    assert!(blocks.declarations.contains("typedef struct QueueMeta {"));
    assert!(blocks.ring_init.contains("func ringsInit("));
    assert_ne!(blocks.declarations, blocks.ring_init);
}
