use vstd::prelude::*;

use crate::non_empty_vec::NonEmptyVec;
use crate::text::{
    extension_of, file_name, file_stem, join_strings, push_char, spec_extension, spec_file_name,
    spec_file_stem, spec_join, str_eq,
};

verus! {

/// The closed set of supported source languages. Identity only: a value
/// carries no data, it merely selects a row of the dispatch table.
#[derive(Clone, Copy, PartialEq, Eq, Structural, Debug)]
pub enum Language {
    Assembly,
    Ats,
    Bash,
    C,
    Clisp,
    Clojure,
    Cobol,
    CoffeeScript,
    Cpp,
    Crystal,
    Csharp,
    D,
    Dart,
    Elixir,
    Elm,
    Erlang,
    Fsharp,
    Go,
    Groovy,
    Guile,
    Hare,
    Haskell,
    Idris,
    Java,
    JavaScript,
    Julia,
    Kotlin,
    Lua,
    Mercury,
    Nim,
    Nix,
    Ocaml,
    Pascal,
    Perl,
    Php,
    Python,
    Raku,
    Ruby,
    Rust,
    SaC,
    Scala,
    Swift,
    TypeScript,
    Zig,
}

/// An ordered list of build commands followed by the single run command.
/// Build commands are executed strictly in order; only after all of them
/// succeed is the run command executed.
#[derive(Debug)]
pub struct RunInstructions {
    pub build_commands: Vec<String>,
    pub run_command: String,
}

/// The mathematical value of a [`RunInstructions`]: every command as its
/// character sequence.
#[verifier::ext_equal]
pub struct SpecRunInstructions {
    pub build_commands: Seq<Seq<char>>,
    pub run_command: Seq<char>,
}

impl View for RunInstructions {
    type V = SpecRunInstructions;

    open spec fn view(&self) -> SpecRunInstructions {
        SpecRunInstructions {
            build_commands: self.build_commands.deep_view(),
            run_command: self.run_command@,
        }
    }
}

/// The character sequences of a list of strings, in order.
pub open spec fn spec_views(files: Seq<String>) -> Seq<Seq<char>> {
    files.map_values(|f: String| f@)
}

/// The files whose extension equals `ext` exactly, in their original order.
pub open spec fn spec_filter_ext(files: Seq<Seq<char>>, ext: Seq<char>) -> Seq<Seq<char>>
    decreases files.len(),
{
    if files.len() == 0 {
        Seq::empty()
    } else {
        let rest = spec_filter_ext(files.drop_first(), ext);
        if spec_extension(files[0]) == Some(ext) {
            seq![files[0]] + rest
        } else {
            rest
        }
    }
}

proof fn lemma_filter_ext_push(files: Seq<Seq<char>>, ext: Seq<char>, file: Seq<char>)
    ensures
        spec_filter_ext(files.push(file), ext) == if spec_extension(file) == Some(ext) {
            spec_filter_ext(files, ext).push(file)
        } else {
            spec_filter_ext(files, ext)
        },
    decreases files.len(),
{
    let pushed = files.push(file);
    if files.len() == 0 {
        assert(pushed.len() == 1);
        assert(pushed[0] == file);
        assert(pushed.drop_first() =~= Seq::<Seq<char>>::empty());
        assert(spec_filter_ext(Seq::<Seq<char>>::empty(), ext) =~= Seq::<Seq<char>>::empty());
        assert(spec_filter_ext(pushed.drop_first(), ext) =~= Seq::<Seq<char>>::empty());
        assert(spec_filter_ext(files, ext) =~= Seq::<Seq<char>>::empty());
        if spec_extension(file) == Some(ext) {
            assert(spec_filter_ext(pushed, ext) =~= spec_filter_ext(files, ext).push(file));
        } else {
            assert(spec_filter_ext(pushed, ext) =~= spec_filter_ext(files, ext));
        }
    } else {
        assert(pushed[0] == files[0]);
        assert(pushed.drop_first() =~= files.drop_first().push(file));
        lemma_filter_ext_push(files.drop_first(), ext, file);
        if spec_extension(file) == Some(ext) {
            assert(spec_filter_ext(pushed, ext) =~= spec_filter_ext(files, ext).push(file));
        } else {
            assert(spec_filter_ext(pushed, ext) =~= spec_filter_ext(files, ext));
        }
    }
}

/// The space-joined list of the files whose extension equals `ext`.
pub open spec fn spec_source_files(files: Seq<Seq<char>>, ext: Seq<char>) -> Seq<char> {
    spec_join(spec_filter_ext(files, ext), " "@)
}

/// Keeps the files whose extension is exactly `extension`, in order.
pub fn filter_by_extension(files: Vec<String>, extension: &str) -> (r: Vec<String>)
    ensures
        r.deep_view() == spec_filter_ext(spec_views(files@), extension@),
{
    let mut out: Vec<String> = Vec::new();
    let mut i: usize = 0;
    proof {
        assert(out.deep_view() =~= spec_filter_ext(spec_views(files@).take(0), extension@));
    }
    while i < files.len()
        invariant
            i <= files@.len(),
            out.deep_view() == spec_filter_ext(spec_views(files@).take(i as int), extension@),
        decreases files@.len() - i,
    {
        let keep = match extension_of(files[i].as_str()) {
            Some(e) => str_eq(e, extension),
            None => false,
        };
        proof {
            let fv = spec_views(files@);
            assert(fv.take(i + 1) =~= fv.take(i as int).push(fv[i as int]));
            lemma_filter_ext_push(fv.take(i as int), extension@, fv[i as int]);
            assert(fv[i as int] == files@[i as int]@);
        }
        if keep {
            let ghost old_out = out.deep_view();
            out.push(files[i].clone());
            proof {
                assert(out.deep_view() =~= old_out.push(files@[i as int]@));
            }
        }
        i += 1;
    }
    proof {
        assert(spec_views(files@).take(files@.len() as int) =~= spec_views(files@));
    }
    out
}

/// Joins file paths with single spaces, in order.
pub fn space_separated_files(files: Vec<String>) -> (r: String)
    ensures
        r@ == spec_join(spec_views(files@), " "@),
{
    let r = join_strings(&files, " ");
    proof {
        assert(files.deep_view() =~= spec_views(files@));
    }
    r
}

/// The space-joined list of the files whose extension is exactly `extension`.
pub fn source_files(files: Vec<String>, extension: &str) -> (r: String)
    ensures
        r@ == spec_source_files(spec_views(files@), extension@),
{
    let filtered = filter_by_extension(files, extension);
    let r = join_strings(&filtered, " ");
    proof {
        assert(filtered.deep_view() =~= spec_views(filtered@));
    }
    r
}

/// The ASCII-uppercased form of a character: lowercase ASCII letters are
/// mapped to their uppercase form, every other character is unchanged.
pub open spec fn spec_ascii_upper(c: char) -> char {
    if 97 <= c as u32 <= 122 {
        ((c as u32 - 32) as u8) as char
    } else {
        c
    }
}

/// The string with its first character ASCII-uppercased; strings that are
/// not pure ASCII, or are shorter than two characters, are unchanged.
pub open spec fn spec_titlecase(s: Seq<char>) -> Seq<char> {
    if !vstd::utf8::is_ascii_chars(s) || s.len() < 2 {
        s
    } else {
        seq![spec_ascii_upper(s[0])] + s.drop_first()
    }
}

/// Upper-cases the first character of an ASCII string of length two or
/// more; leaves any other string unchanged.
pub fn titlecase_ascii(s: &str) -> (r: String)
    ensures
        r@ == spec_titlecase(s@),
{
    let n = s.unicode_len();
    if !s.is_ascii() || n < 2 {
        s.to_owned()
    } else {
        let c = s.get_char(0);
        let u = c as u32;
        let up: char = if 97 <= u && u <= 122 {
            ((u - 32) as u8) as char
        } else {
            c
        };
        let mut r = String::new();
        push_char(&mut r, up);
        let rest = s.substring_char(1, n);
        r.append(rest);
        proof {
            assert(r@ =~= spec_titlecase(s@));
        }
        r
    }
}

/// Reverses the order of the files.
fn reversed(files: Vec<String>) -> (r: Vec<String>)
    ensures
        r.deep_view() == spec_views(files@).reverse(),
{
    let mut out: Vec<String> = Vec::new();
    let mut i: usize = files.len();
    while i > 0
        invariant
            i <= files@.len(),
            out@.len() == files@.len() - i,
            forall|j: int|
                0 <= j < out@.len() ==> out.deep_view()[j] == files@[files@.len() - 1 - j]@,
        decreases i,
    {
        i -= 1;
        let ghost old_dv = out.deep_view();
        out.push(files[i].clone());
        proof {
            assert(out.deep_view() =~= old_dv.push(files@[i as int]@));
        }
    }
    proof {
        assert(out.deep_view() =~= spec_views(files@).reverse());
    }
    out
}

/// The stem of the main file's final path component, or `Main` when the
/// path has no final component.
pub open spec fn spec_stem_or_main(path: Seq<char>) -> Seq<char> {
    if spec_file_name(path).len() == 0 {
        "Main"@
    } else {
        spec_file_stem(path)
    }
}

/// Zero build commands; the run command is the interpreter prefix followed
/// by the main file.
pub open spec fn spec_interpreter(prefix: Seq<char>, main: Seq<char>) -> SpecRunInstructions {
    SpecRunInstructions { build_commands: Seq::empty(), run_command: prefix + main }
}

/// Zero build commands; the run command names the main file and then the
/// other files with the given extension.
pub open spec fn spec_interpreter_with_files(
    prefix: Seq<char>,
    main: Seq<char>,
    others: Seq<Seq<char>>,
    ext: Seq<char>,
) -> SpecRunInstructions {
    SpecRunInstructions {
        build_commands: Seq::empty(),
        run_command: prefix + main + " "@ + spec_source_files(others, ext),
    }
}

/// One build command compiling the main file alone; a fixed run command.
pub open spec fn spec_compile_single(
    prefix: Seq<char>,
    main: Seq<char>,
    run: Seq<char>,
) -> SpecRunInstructions {
    SpecRunInstructions { build_commands: seq![prefix + main], run_command: run }
}

/// Two build commands: the first names the main file, the second is fixed;
/// then a fixed run command.
pub open spec fn spec_compile_two_step(
    first_prefix: Seq<char>,
    second: Seq<char>,
    main: Seq<char>,
    run: Seq<char>,
) -> SpecRunInstructions {
    SpecRunInstructions { build_commands: seq![first_prefix + main, second], run_command: run }
}

/// One build command naming the main file and then the other files with the
/// given extension, in original order; a fixed run command.
pub open spec fn spec_compile_filtered(
    prefix: Seq<char>,
    main: Seq<char>,
    others: Seq<Seq<char>>,
    ext: Seq<char>,
    run: Seq<char>,
) -> SpecRunInstructions {
    SpecRunInstructions {
        build_commands: seq![prefix + main + " "@ + spec_source_files(others, ext)],
        run_command: run,
    }
}

/// One build command naming the filtered other files in reverse order and
/// the main file last; a fixed run command.
pub open spec fn spec_compile_reversed(
    prefix: Seq<char>,
    others: Seq<Seq<char>>,
    ext: Seq<char>,
    main: Seq<char>,
    run: Seq<char>,
) -> SpecRunInstructions {
    SpecRunInstructions {
        build_commands: seq![
            prefix + spec_join(spec_filter_ext(others, ext).reverse(), " "@) + " "@ + main,
        ],
        run_command: run,
    }
}

/// One build command per other file with the given extension, each naming
/// that file alone; the run command names the main file.
pub open spec fn spec_compile_each(
    build_prefix: Seq<char>,
    others: Seq<Seq<char>>,
    ext: Seq<char>,
    run_prefix: Seq<char>,
    main: Seq<char>,
) -> SpecRunInstructions {
    SpecRunInstructions {
        build_commands: spec_filter_ext(others, ext).map_values(|f: Seq<char>| build_prefix + f),
        run_command: run_prefix + main,
    }
}

/// One build command compiling the main file; the run command is derived
/// from the main file's stem, first character ASCII-uppercased, with a
/// fixed suffix appended.
pub open spec fn spec_compile_entry(
    build_prefix: Seq<char>,
    main: Seq<char>,
    run_prefix: Seq<char>,
    suffix: Seq<char>,
) -> SpecRunInstructions {
    SpecRunInstructions {
        build_commands: seq![build_prefix + main],
        run_command: run_prefix + spec_titlecase(spec_stem_or_main(main)) + suffix,
    }
}

fn concat2(a: &str, b: &str) -> (r: String)
    ensures
        r@ == a@ + b@,
{
    let mut r = String::from_str(a);
    r.append(b);
    r
}

fn one_command(command: String) -> (r: Vec<String>)
    ensures
        r.deep_view() == seq![command@],
{
    let mut bc: Vec<String> = Vec::new();
    bc.push(command);
    proof {
        assert(bc.deep_view() =~= seq![command@]);
    }
    bc
}

fn interpreter(prefix: &str, main_file: String) -> (r: RunInstructions)
    ensures
        r@ == spec_interpreter(prefix@, main_file@),
{
    let run_command = concat2(prefix, main_file.as_str());
    let r = RunInstructions { build_commands: Vec::new(), run_command };
    proof {
        assert(r@ =~= spec_interpreter(prefix@, main_file@));
    }
    r
}

fn interpreter_with_files(
    prefix: &str,
    main_file: String,
    other_files: Vec<String>,
    ext: &str,
) -> (r: RunInstructions)
    ensures
        r@ == spec_interpreter_with_files(prefix@, main_file@, spec_views(other_files@), ext@),
{
    let mut run_command = String::from_str(prefix);
    run_command.append(main_file.as_str());
    run_command.append(" ");
    let srcs = source_files(other_files, ext);
    run_command.append(srcs.as_str());
    let r = RunInstructions { build_commands: Vec::new(), run_command };
    proof {
        assert(r@ =~= spec_interpreter_with_files(
            prefix@,
            main_file@,
            spec_views(other_files@),
            ext@,
        ));
    }
    r
}

fn compile_single(prefix: &str, main_file: String, run: &str) -> (r: RunInstructions)
    ensures
        r@ == spec_compile_single(prefix@, main_file@, run@),
{
    let build = concat2(prefix, main_file.as_str());
    let r = RunInstructions {
        build_commands: one_command(build),
        run_command: String::from_str(run),
    };
    proof {
        assert(r@ =~= spec_compile_single(prefix@, main_file@, run@));
    }
    r
}

fn compile_two_step(
    first_prefix: &str,
    second: &str,
    main_file: String,
    run: &str,
) -> (r: RunInstructions)
    ensures
        r@ == spec_compile_two_step(first_prefix@, second@, main_file@, run@),
{
    let first = concat2(first_prefix, main_file.as_str());
    let mut build_commands = one_command(first);
    let ghost before = build_commands.deep_view();
    build_commands.push(String::from_str(second));
    let r = RunInstructions { build_commands, run_command: String::from_str(run) };
    proof {
        assert(r@.build_commands =~= before.push(second@));
        assert(r@ =~= spec_compile_two_step(first_prefix@, second@, main_file@, run@));
    }
    r
}

fn compile_filtered(
    prefix: &str,
    main_file: String,
    other_files: Vec<String>,
    ext: &str,
    run: &str,
) -> (r: RunInstructions)
    ensures
        r@ == spec_compile_filtered(prefix@, main_file@, spec_views(other_files@), ext@, run@),
{
    let mut build = String::from_str(prefix);
    build.append(main_file.as_str());
    build.append(" ");
    let srcs = source_files(other_files, ext);
    build.append(srcs.as_str());
    let r = RunInstructions {
        build_commands: one_command(build),
        run_command: String::from_str(run),
    };
    proof {
        assert(r@ =~= spec_compile_filtered(
            prefix@,
            main_file@,
            spec_views(other_files@),
            ext@,
            run@,
        ));
    }
    r
}

fn compile_reversed(
    prefix: &str,
    other_files: Vec<String>,
    ext: &str,
    main_file: String,
    run: &str,
) -> (r: RunInstructions)
    ensures
        r@ == spec_compile_reversed(prefix@, spec_views(other_files@), ext@, main_file@, run@),
{
    let filtered = filter_by_extension(other_files, ext);
    let rev = reversed(filtered);
    let joined = join_strings(&rev, " ");
    let mut build = String::from_str(prefix);
    build.append(joined.as_str());
    build.append(" ");
    build.append(main_file.as_str());
    let r = RunInstructions {
        build_commands: one_command(build),
        run_command: String::from_str(run),
    };
    proof {
        assert(spec_views(filtered@) =~= filtered.deep_view());
        assert(r@ =~= spec_compile_reversed(
            prefix@,
            spec_views(other_files@),
            ext@,
            main_file@,
            run@,
        ));
    }
    r
}

fn compile_each(
    build_prefix: &str,
    other_files: Vec<String>,
    ext: &str,
    run_prefix: &str,
    main_file: String,
) -> (r: RunInstructions)
    ensures
        r@ == spec_compile_each(
            build_prefix@,
            spec_views(other_files@),
            ext@,
            run_prefix@,
            main_file@,
        ),
{
    let ghost others_view = spec_views(other_files@);
    let filtered = filter_by_extension(other_files, ext);
    let mut build_commands: Vec<String> = Vec::new();
    let mut i: usize = 0;
    while i < filtered.len()
        invariant
            i <= filtered@.len(),
            filtered.deep_view() == spec_filter_ext(others_view, ext@),
            build_commands.deep_view().len() == i,
            forall|j: int|
                0 <= j < i ==> build_commands.deep_view()[j] == build_prefix@
                    + filtered.deep_view()[j],
        decreases filtered@.len() - i,
    {
        let command = concat2(build_prefix, filtered[i].as_str());
        let ghost before = build_commands.deep_view();
        build_commands.push(command);
        proof {
            assert(build_commands.deep_view() =~= before.push(build_prefix@ + filtered@[
                i as int
            ]@));
        }
        i += 1;
    }
    let run_command = concat2(run_prefix, main_file.as_str());
    let r = RunInstructions { build_commands, run_command };
    proof {
        assert(r@.build_commands =~= spec_filter_ext(others_view, ext@).map_values(
            |f: Seq<char>| build_prefix@ + f,
        ));
        assert(r@ =~= spec_compile_each(
            build_prefix@,
            others_view,
            ext@,
            run_prefix@,
            main_file@,
        ));
    }
    r
}

fn compile_entry(
    build_prefix: &str,
    main_file: String,
    run_prefix: &str,
    run_suffix: &str,
) -> (r: RunInstructions)
    ensures
        r@ == spec_compile_entry(build_prefix@, main_file@, run_prefix@, run_suffix@),
{
    let entry = {
        let name = file_name(main_file.as_str());
        if name.unicode_len() == 0 {
            titlecase_ascii("Main")
        } else {
            let stem = file_stem(main_file.as_str());
            titlecase_ascii(stem)
        }
    };
    let mut run_command = String::from_str(run_prefix);
    run_command.append(entry.as_str());
    run_command.append(run_suffix);
    let build = concat2(build_prefix, main_file.as_str());
    let r = RunInstructions { build_commands: one_command(build), run_command };
    proof {
        assert(r@ =~= spec_compile_entry(build_prefix@, main_file@, run_prefix@, run_suffix@));
    }
    r
}

/// The build and run commands for `language`, as a function of the main
/// file (the head of the list) and the other files (its tail).
pub open spec fn spec_run_instructions(
    language: Language,
    main: Seq<char>,
    others: Seq<Seq<char>>,
) -> SpecRunInstructions {
    match language {
        Language::Assembly => spec_compile_two_step(
            "nasm -f elf64 -o a.o "@,
            "ld -o a.out a.o"@,
            main,
            "./a.out"@,
        ),
        Language::Ats => spec_compile_filtered("patscc -o a.out "@, main, others, "dats"@, "./a.out"@),
        Language::Bash => spec_interpreter("bash "@, main),
        Language::C => spec_compile_filtered(
            "clang -o a.out -lm "@,
            main,
            others,
            "c"@,
            "./a.out"@,
        ),
        Language::Clisp => spec_interpreter("sbcl --noinform --non-interactive --load "@, main),
        Language::Clojure => spec_interpreter("clj -M "@, main),
        Language::Cobol => spec_compile_filtered(
            "cobc -x -o a.out "@,
            main,
            others,
            "cob"@,
            "./a.out"@,
        ),
        Language::CoffeeScript => spec_interpreter("coffee "@, main),
        Language::Cpp => spec_compile_filtered(
            "clang++ -std=c++11 -o a.out "@,
            main,
            others,
            "c"@,
            "./a.out"@,
        ),
        Language::Crystal => spec_interpreter("crystal run "@, main),
        Language::Csharp => spec_compile_filtered(
            "mcs -out:a.exe "@,
            main,
            others,
            "cs"@,
            "mono a.exe"@,
        ),
        Language::D => spec_compile_filtered("dmd -ofa.out "@, main, others, "d"@, "./a.out"@),
        Language::Dart => spec_interpreter("dart "@, main),
        Language::Elixir => spec_interpreter_with_files("elixirc "@, main, others, "ex"@),
        Language::Elm => spec_compile_single("elm make --output a.js "@, main, "elm-runner a.js"@),
        Language::Erlang => spec_compile_each("erlc "@, others, "erl"@, "escript "@, main),
        Language::Fsharp => spec_compile_reversed(
            "fsharpc --out:a.exe "@,
            others,
            "fs"@,
            main,
            "mono a.exe"@,
        ),
        Language::Go => spec_compile_single("go build -o a.out "@, main, "./a.out"@),
        Language::Groovy => spec_interpreter("groovy "@, main),
        Language::Guile => spec_interpreter(
            "guile --no-debug --fresh-auto-compile --no-auto-compile -s "@,
            main,
        ),
        Language::Hare => spec_compile_single("hare build -o a.out "@, main, "./a.out"@),
        Language::Haskell => spec_interpreter("runghc "@, main),
        Language::Idris => spec_compile_single(
            "idris2 -o a.out --output-dir . "@,
            main,
            "./a.out"@,
        ),
        Language::Java => spec_compile_entry("javac "@, main, "java "@, ""@),
        Language::JavaScript => spec_interpreter("node "@, main),
        Language::Julia => spec_interpreter("julia "@, main),
        Language::Kotlin => spec_compile_entry("kotlinc "@, main, "kotlin "@, "Kt"@),
        Language::Lua => spec_interpreter("lua "@, main),
        Language::Mercury => spec_compile_filtered(
            "mmc -o a.out "@,
            main,
            others,
            "m"@,
            "./a.out"@,
        ),
        Language::Nim => spec_interpreter("nim --hints:off --verbosity:0 compile --run "@, main),
        Language::Nix => spec_interpreter("nix-instantiate --eval "@, main),
        Language::Ocaml => spec_compile_reversed(
            "ocamlc -o a.out "@,
            others,
            "ml"@,
            main,
            "./a.out"@,
        ),
        Language::Pascal => spec_compile_single("fpc -oa.out "@, main, "./a.out"@),
        Language::Perl => spec_interpreter("perl "@, main),
        Language::Php => spec_interpreter("php "@, main),
        Language::Python => spec_interpreter("python "@, main),
        Language::Raku => spec_interpreter("raku "@, main),
        Language::Ruby => spec_interpreter("ruby "@, main),
        Language::Rust => spec_compile_single("rustc -o a.out "@, main, "./a.out"@),
        Language::SaC => spec_compile_filtered(
            "sac2c -t seq -o a.out "@,
            main,
            others,
            "c"@,
            "./a.out"@,
        ),
        Language::Scala => spec_compile_filtered("scalac "@, main, others, "scala"@, "scala Main"@),
        Language::Swift => spec_compile_filtered(
            "swiftc -o a.out "@,
            main,
            others,
            "swift"@,
            "./a.out"@,
        ),
        Language::TypeScript => spec_compile_filtered(
            "tsc -outFile a.js "@,
            main,
            others,
            "ts"@,
            "node a.js"@,
        ),
        Language::Zig => spec_interpreter("zig run "@, main),
    }
}

/// Resolves a language and a non-empty ordered file list into build and run
/// commands. Pure and total: the result is exactly
/// [`spec_run_instructions`] of the language, the head file and the tail
/// files, so two calls on equal inputs yield equal instructions.
#[verifier::rlimit(30)]
pub fn run_instructions(language: &Language, files: NonEmptyVec<String>) -> (r: RunInstructions)
    ensures
        r@ == spec_run_instructions(
            *language,
            files.spec_head()@,
            spec_views(files.spec_tail()),
        ),
{
    let (main_file, other_files) = files.parts();
    match language {
        Language::Assembly => compile_two_step(
            "nasm -f elf64 -o a.o ",
            "ld -o a.out a.o",
            main_file,
            "./a.out",
        ),
        Language::Ats => compile_filtered("patscc -o a.out ", main_file, other_files, "dats", "./a.out"),
        Language::Bash => interpreter("bash ", main_file),
        Language::C => compile_filtered("clang -o a.out -lm ", main_file, other_files, "c", "./a.out"),
        Language::Clisp => interpreter("sbcl --noinform --non-interactive --load ", main_file),
        Language::Clojure => interpreter("clj -M ", main_file),
        Language::Cobol => compile_filtered(
            "cobc -x -o a.out ",
            main_file,
            other_files,
            "cob",
            "./a.out",
        ),
        Language::CoffeeScript => interpreter("coffee ", main_file),
        Language::Cpp => compile_filtered(
            "clang++ -std=c++11 -o a.out ",
            main_file,
            other_files,
            "c",
            "./a.out",
        ),
        Language::Crystal => interpreter("crystal run ", main_file),
        Language::Csharp => compile_filtered(
            "mcs -out:a.exe ",
            main_file,
            other_files,
            "cs",
            "mono a.exe",
        ),
        Language::D => compile_filtered("dmd -ofa.out ", main_file, other_files, "d", "./a.out"),
        Language::Dart => interpreter("dart ", main_file),
        Language::Elixir => interpreter_with_files("elixirc ", main_file, other_files, "ex"),
        Language::Elm => compile_single("elm make --output a.js ", main_file, "elm-runner a.js"),
        Language::Erlang => compile_each("erlc ", other_files, "erl", "escript ", main_file),
        Language::Fsharp => compile_reversed(
            "fsharpc --out:a.exe ",
            other_files,
            "fs",
            main_file,
            "mono a.exe",
        ),
        Language::Go => compile_single("go build -o a.out ", main_file, "./a.out"),
        Language::Groovy => interpreter("groovy ", main_file),
        Language::Guile => interpreter(
            "guile --no-debug --fresh-auto-compile --no-auto-compile -s ",
            main_file,
        ),
        Language::Hare => compile_single("hare build -o a.out ", main_file, "./a.out"),
        Language::Haskell => interpreter("runghc ", main_file),
        Language::Idris => compile_single("idris2 -o a.out --output-dir . ", main_file, "./a.out"),
        Language::Java => compile_entry("javac ", main_file, "java ", ""),
        Language::JavaScript => interpreter("node ", main_file),
        Language::Julia => interpreter("julia ", main_file),
        Language::Kotlin => compile_entry("kotlinc ", main_file, "kotlin ", "Kt"),
        Language::Lua => interpreter("lua ", main_file),
        Language::Mercury => compile_filtered("mmc -o a.out ", main_file, other_files, "m", "./a.out"),
        Language::Nim => interpreter("nim --hints:off --verbosity:0 compile --run ", main_file),
        Language::Nix => interpreter("nix-instantiate --eval ", main_file),
        Language::Ocaml => compile_reversed(
            "ocamlc -o a.out ",
            other_files,
            "ml",
            main_file,
            "./a.out",
        ),
        Language::Pascal => compile_single("fpc -oa.out ", main_file, "./a.out"),
        Language::Perl => interpreter("perl ", main_file),
        Language::Php => interpreter("php ", main_file),
        Language::Python => interpreter("python ", main_file),
        Language::Raku => interpreter("raku ", main_file),
        Language::Ruby => interpreter("ruby ", main_file),
        Language::Rust => compile_single("rustc -o a.out ", main_file, "./a.out"),
        Language::SaC => compile_filtered(
            "sac2c -t seq -o a.out ",
            main_file,
            other_files,
            "c",
            "./a.out",
        ),
        Language::Scala => compile_filtered("scalac ", main_file, other_files, "scala", "scala Main"),
        Language::Swift => compile_filtered(
            "swiftc -o a.out ",
            main_file,
            other_files,
            "swift",
            "./a.out",
        ),
        Language::TypeScript => compile_filtered(
            "tsc -outFile a.js ",
            main_file,
            other_files,
            "ts",
            "node a.js",
        ),
        Language::Zig => interpreter("zig run ", main_file),
    }
}

/// Resolution is deterministic: any two instruction values that satisfy the
/// resolver's contract for the same language and the same file list are
/// equal.
pub proof fn lemma_run_instructions_deterministic(
    language: Language,
    main: Seq<char>,
    others: Seq<Seq<char>>,
    r1: SpecRunInstructions,
    r2: SpecRunInstructions,
)
    requires
        r1 == spec_run_instructions(language, main, others),
        r2 == spec_run_instructions(language, main, others),
    ensures
        r1 == r2,
{
}

} // verus!
