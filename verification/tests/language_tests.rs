use code_runner::language::{run_instructions, Language};
use code_runner::non_empty_vec::from_vec;
use code_runner::non_empty_vec::NonEmptyVec;

fn files(paths: &[&str]) -> NonEmptyVec<String> {
    let vec: Vec<String> = paths.iter().map(|p| p.to_string()).collect();
    from_vec(vec).expect("file list must be non-empty")
}

#[test]
fn python_single_file() {
    let r = run_instructions(&Language::Python, files(&["main.py"]));
    assert_eq!(r.build_commands, Vec::<String>::new());
    assert_eq!(r.run_command, "python main.py");
}

#[test]
fn resolution_is_deterministic() {
    let a = run_instructions(&Language::C, files(&["main.c", "util.c", "notes.txt"]));
    let b = run_instructions(&Language::C, files(&["main.c", "util.c", "notes.txt"]));
    assert_eq!(a.build_commands, b.build_commands);
    assert_eq!(a.run_command, b.run_command);
}

#[test]
fn c_two_files_excludes_other_extensions() {
    let r = run_instructions(&Language::C, files(&["main.c", "util.c", "notes.txt"]));
    assert_eq!(r.build_commands, vec!["clang -o a.out -lm main.c util.c".to_string()]);
    assert_eq!(r.run_command, "./a.out");
}

#[test]
fn c_single_file_keeps_trailing_space() {
    let r = run_instructions(&Language::C, files(&["main.c"]));
    assert_eq!(r.build_commands, vec!["clang -o a.out -lm main.c ".to_string()]);
}

#[test]
fn cpp_filters_on_c_extension() {
    let r = run_instructions(&Language::Cpp, files(&["main.cpp", "util.c", "other.cpp"]));
    assert_eq!(
        r.build_commands,
        vec!["clang++ -std=c++11 -o a.out main.cpp util.c".to_string()]
    );
    assert_eq!(r.run_command, "./a.out");
}

#[test]
fn java_uppercase_stem_unchanged() {
    let r = run_instructions(&Language::Java, files(&["HelloWorld.java"]));
    assert_eq!(r.build_commands, vec!["javac HelloWorld.java".to_string()]);
    assert_eq!(r.run_command, "java HelloWorld");
}

#[test]
fn java_lowercase_stem_titlecased() {
    let r = run_instructions(&Language::Java, files(&["hello.java"]));
    assert_eq!(r.run_command, "java Hello");
}

#[test]
fn java_single_non_ascii_stem_unchanged() {
    let r = run_instructions(&Language::Java, files(&["é.java"]));
    assert_eq!(r.run_command, "java é");
}

#[test]
fn java_short_stem_unchanged() {
    let r = run_instructions(&Language::Java, files(&["a.java"]));
    assert_eq!(r.run_command, "java a");
}

#[test]
fn kotlin_appends_kt_suffix() {
    let r = run_instructions(&Language::Kotlin, files(&["hello.kt"]));
    assert_eq!(r.build_commands, vec!["kotlinc hello.kt".to_string()]);
    assert_eq!(r.run_command, "kotlin HelloKt");
}

#[test]
fn assembly_has_two_build_steps() {
    let r = run_instructions(&Language::Assembly, files(&["main.asm"]));
    assert_eq!(
        r.build_commands,
        vec!["nasm -f elf64 -o a.o main.asm".to_string(), "ld -o a.out a.o".to_string()]
    );
    assert_eq!(r.run_command, "./a.out");
}

#[test]
fn fsharp_reverses_filtered_sources() {
    let r = run_instructions(
        &Language::Fsharp,
        files(&["main.fs", "one.fs", "two.fs", "skip.txt"]),
    );
    assert_eq!(
        r.build_commands,
        vec!["fsharpc --out:a.exe two.fs one.fs main.fs".to_string()]
    );
    assert_eq!(r.run_command, "mono a.exe");
}

#[test]
fn ocaml_reverses_filtered_sources() {
    let r = run_instructions(&Language::Ocaml, files(&["main.ml", "one.ml", "two.ml"]));
    assert_eq!(r.build_commands, vec!["ocamlc -o a.out two.ml one.ml main.ml".to_string()]);
    assert_eq!(r.run_command, "./a.out");
}

#[test]
fn erlang_builds_one_command_per_source() {
    let r = run_instructions(
        &Language::Erlang,
        files(&["main.erl", "one.erl", "skip.hrl", "two.erl"]),
    );
    assert_eq!(
        r.build_commands,
        vec!["erlc one.erl".to_string(), "erlc two.erl".to_string()]
    );
    assert_eq!(r.run_command, "escript main.erl");
}

#[test]
fn elixir_names_sources_in_run_command() {
    let r = run_instructions(&Language::Elixir, files(&["main.ex", "extra.ex", "skip.txt"]));
    assert_eq!(r.build_commands, Vec::<String>::new());
    assert_eq!(r.run_command, "elixirc main.ex extra.ex");
}

#[test]
fn scala_has_fixed_run_command() {
    let r = run_instructions(&Language::Scala, files(&["main.scala", "util.scala"]));
    assert_eq!(r.build_commands, vec!["scalac main.scala util.scala".to_string()]);
    assert_eq!(r.run_command, "scala Main");
}

#[test]
fn rust_compiles_main_file_only() {
    let r = run_instructions(&Language::Rust, files(&["main.rs", "other.rs"]));
    assert_eq!(r.build_commands, vec!["rustc -o a.out main.rs".to_string()]);
    assert_eq!(r.run_command, "./a.out");
}

#[test]
fn extension_match_is_case_sensitive() {
    let r = run_instructions(&Language::C, files(&["main.c", "loud.C"]));
    assert_eq!(r.build_commands, vec!["clang -o a.out -lm main.c ".to_string()]);
}

#[test]
fn extension_match_uses_final_component() {
    let r = run_instructions(&Language::C, files(&["main.c", "sub/dir.c/notes.txt"]));
    assert_eq!(r.build_commands, vec!["clang -o a.out -lm main.c ".to_string()]);
}

#[test]
fn java_stem_uses_final_path_component() {
    let r = run_instructions(&Language::Java, files(&["src/hello.java"]));
    assert_eq!(r.run_command, "java Hello");
}

#[test]
fn dotfile_has_no_extension() {
    let r = run_instructions(&Language::C, files(&["main.c", ".c"]));
    assert_eq!(r.build_commands, vec!["clang -o a.out -lm main.c ".to_string()]);
}

#[test]
fn empty_file_list_is_rejected() {
    assert!(from_vec(Vec::<String>::new()).is_none());
}

#[test]
fn non_empty_vec_orders_parts() {
    let nev = files(&["a", "b", "c"]);
    assert_eq!(nev.head().as_str(), "a");
    assert_eq!(nev.tail(), &vec!["b".to_string(), "c".to_string()]);
    let (head, tail) = files(&["x", "y"]).parts();
    assert_eq!(head, "x");
    assert_eq!(tail, vec!["y".to_string()]);
}

#[test]
fn bash_interpreter_command() {
    let r = run_instructions(&Language::Bash, files(&["run.sh"]));
    assert_eq!(r.build_commands, Vec::<String>::new());
    assert_eq!(r.run_command, "bash run.sh");
}

#[test]
fn nim_compile_run_in_one_command() {
    let r = run_instructions(&Language::Nim, files(&["main.nim"]));
    assert_eq!(r.build_commands, Vec::<String>::new());
    assert_eq!(r.run_command, "nim --hints:off --verbosity:0 compile --run main.nim");
}

#[test]
fn typescript_builds_js_and_runs_node() {
    let r = run_instructions(&Language::TypeScript, files(&["main.ts", "util.ts"]));
    assert_eq!(r.build_commands, vec!["tsc -outFile a.js main.ts util.ts".to_string()]);
    assert_eq!(r.run_command, "node a.js");
}
