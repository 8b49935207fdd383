//! The programming languages that the report looks for, and the section that
//! lists where each one is installed.

use vstd::prelude::*;
use vstd::string::*;
use crate::sysinfo::{add_section_header, banner_of};
use crate::text::{decode_lossy, texts_of, trimmed_lines, trimmed_lines_of, uppercase_of, utf8_lossy};

verus! {

/// The number of languages in the table.
pub const LANGUAGE_COUNT: usize = 46;

/// The name of the language with this index in the table; empty for an index
/// outside the table.
pub open spec fn language_name_of(index: int) -> Seq<char> {
    if index == 0 {
        "C"@
    } else if index == 1 {
        "C++"@
    } else if index == 2 {
        "C#"@
    } else if index == 3 {
        "D"@
    } else if index == 4 {
        "Java"@
    } else if index == 5 {
        "Kotlin"@
    } else if index == 6 {
        "Scala"@
    } else if index == 7 {
        "Go"@
    } else if index == 8 {
        "Rust"@
    } else if index == 9 {
        "Swift"@
    } else if index == 10 {
        "F#"@
    } else if index == 11 {
        "Fortran"@
    } else if index == 12 {
        "Pascal"@
    } else if index == 13 {
        "Delphi"@
    } else if index == 14 {
        "Ada"@
    } else if index == 15 {
        "Objective-C"@
    } else if index == 16 {
        "Zig"@
    } else if index == 17 {
        "Nim"@
    } else if index == 18 {
        "Python"@
    } else if index == 19 {
        "Perl"@
    } else if index == 20 {
        "PHP"@
    } else if index == 21 {
        "Ruby"@
    } else if index == 22 {
        "Node.js"@
    } else if index == 23 {
        "R"@
    } else if index == 24 {
        "Lua"@
    } else if index == 25 {
        "Tcl"@
    } else if index == 26 {
        "Julia"@
    } else if index == 27 {
        "Raku"@
    } else if index == 28 {
        "Groovy"@
    } else if index == 29 {
        "Haskell (GHC)"@
    } else if index == 30 {
        "OCaml"@
    } else if index == 31 {
        "Erlang"@
    } else if index == 32 {
        "Elixir"@
    } else if index == 33 {
        "Lisp (SBCL)"@
    } else if index == 34 {
        "Lisp (CLISP)"@
    } else if index == 35 {
        "Clojure"@
    } else if index == 36 {
        "Scheme"@
    } else if index == 37 {
        "JRuby"@
    } else if index == 38 {
        "Jython"@
    } else if index == 39 {
        "Emscripten (C/C++)"@
    } else if index == 40 {
        "AssemblyScript"@
    } else if index == 41 {
        "MATLAB"@
    } else if index == 42 {
        "Octave"@
    } else if index == 43 {
        "Prolog (SWI-Prolog)"@
    } else if index == 44 {
        "Visual Basic .NET"@
    } else if index == 45 {
        "PowerShell"@
    } else {
        Seq::empty()
    }
}

/// The program names by which the language with this index is looked for,
/// in the order in which they are tried; none for an index outside the table.
pub open spec fn candidates_of(index: int) -> Seq<Seq<char>> {
    if index == 0 {
        seq!["cl.exe"@, "gcc.exe"@, "clang.exe"@]
    } else if index == 1 {
        seq!["cl.exe"@, "g++.exe"@, "clang++.exe"@]
    } else if index == 2 {
        seq!["csc.exe"@, "dotnet.exe"@]
    } else if index == 3 {
        seq!["dmd.exe"@, "ldc2.exe"@, "gdc.exe"@]
    } else if index == 4 {
        seq!["java.exe"@, "javac.exe"@]
    } else if index == 5 {
        seq!["kotlinc.exe"@, "kotlinc-jvm.exe"@, "kotlin.bat"@]
    } else if index == 6 {
        seq!["scala.exe"@, "scalac.exe"@]
    } else if index == 7 {
        seq!["go.exe"@]
    } else if index == 8 {
        seq!["rustc.exe"@, "cargo.exe"@]
    } else if index == 9 {
        seq!["swift.exe"@, "swiftc.exe"@]
    } else if index == 10 {
        seq!["fsc.exe"@, "fsi.exe"@, "dotnet.exe"@]
    } else if index == 11 {
        seq!["gfortran.exe"@, "ifort.exe"@]
    } else if index == 12 {
        seq!["fpc.exe"@, "ppc386.exe"@, "ppcx64.exe"@]
    } else if index == 13 {
        seq!["dcc32.exe"@, "dcc64.exe"@, "bds.exe"@]
    } else if index == 14 {
        seq!["gnat.exe"@, "gcc.exe"@]
    } else if index == 15 {
        seq!["gcc.exe"@, "clang.exe"@]
    } else if index == 16 {
        seq!["zig.exe"@]
    } else if index == 17 {
        seq!["nim.exe"@, "nimble.exe"@]
    } else if index == 18 {
        seq!["python.exe"@, "python3.exe"@, "pypy.exe"@, "pypy3.exe"@]
    } else if index == 19 {
        seq!["perl.exe"@]
    } else if index == 20 {
        seq!["php.exe"@, "php-cgi.exe"@]
    } else if index == 21 {
        seq!["ruby.exe"@, "irb.exe"@]
    } else if index == 22 {
        seq!["node.exe"@]
    } else if index == 23 {
        seq!["R.exe"@, "Rscript.exe"@]
    } else if index == 24 {
        seq!["lua.exe"@, "luajit.exe"@]
    } else if index == 25 {
        seq!["tclsh.exe"@, "tclsh86.exe"@, "tclsh8.6.exe"@]
    } else if index == 26 {
        seq!["julia.exe"@]
    } else if index == 27 {
        seq!["raku.exe"@, "perl6.exe"@]
    } else if index == 28 {
        seq!["groovy.exe"@, "groovyc.exe"@, "grape.exe"@]
    } else if index == 29 {
        seq!["ghc.exe"@, "ghci.exe"@, "runghc.exe"@]
    } else if index == 30 {
        seq!["ocaml.exe"@, "ocamlc.exe"@, "ocamlopt.exe"@, "ocamldebug.exe"@]
    } else if index == 31 {
        seq!["erl.exe"@, "erlc.exe"@]
    } else if index == 32 {
        seq!["elixir.exe"@, "iex.exe"@, "mix.exe"@]
    } else if index == 33 {
        seq!["sbcl.exe"@]
    } else if index == 34 {
        seq!["clisp.exe"@]
    } else if index == 35 {
        seq!["clojure.exe"@, "clj.exe"@]
    } else if index == 36 {
        seq!["guile.exe"@, "mit-scheme.exe"@, "racket.exe"@]
    } else if index == 37 {
        seq!["jruby.exe"@]
    } else if index == 38 {
        seq!["jython.exe"@]
    } else if index == 39 {
        seq!["emcc.bat"@, "em++.bat"@, "emcc"@, "em++"@]
    } else if index == 40 {
        seq!["asc.cmd"@, "asc"@]
    } else if index == 41 {
        seq!["matlab.exe"@]
    } else if index == 42 {
        seq!["octave-cli.exe"@, "octave.exe"@]
    } else if index == 43 {
        seq!["swipl.exe"@, "swipl-win.exe"@]
    } else if index == 44 {
        seq!["vbc.exe"@]
    } else if index == 45 {
        seq!["powershell.exe"@, "pwsh.exe"@]
    } else {
        Seq::empty()
    }
}

/// The views of a vector of string slices.
pub open spec fn names_of(names: Seq<&'static str>) -> Seq<Seq<char>> {
    Seq::new(names.len(), |k: int| names[k]@)
}

/// The name of the language with this index in the table.
pub fn language_name(index: usize) -> (name: &'static str)
    ensures
        name@ == language_name_of(index as int),
{
    match index {
        0 => "C",
        1 => "C++",
        2 => "C#",
        3 => "D",
        4 => "Java",
        5 => "Kotlin",
        6 => "Scala",
        7 => "Go",
        8 => "Rust",
        9 => "Swift",
        10 => "F#",
        11 => "Fortran",
        12 => "Pascal",
        13 => "Delphi",
        14 => "Ada",
        15 => "Objective-C",
        16 => "Zig",
        17 => "Nim",
        18 => "Python",
        19 => "Perl",
        20 => "PHP",
        21 => "Ruby",
        22 => "Node.js",
        23 => "R",
        24 => "Lua",
        25 => "Tcl",
        26 => "Julia",
        27 => "Raku",
        28 => "Groovy",
        29 => "Haskell (GHC)",
        30 => "OCaml",
        31 => "Erlang",
        32 => "Elixir",
        33 => "Lisp (SBCL)",
        34 => "Lisp (CLISP)",
        35 => "Clojure",
        36 => "Scheme",
        37 => "JRuby",
        38 => "Jython",
        39 => "Emscripten (C/C++)",
        40 => "AssemblyScript",
        41 => "MATLAB",
        42 => "Octave",
        43 => "Prolog (SWI-Prolog)",
        44 => "Visual Basic .NET",
        45 => "PowerShell",
        _ => {
            let none = "";
            proof {
                reveal_strlit("");
            }
            none
        },
    }
}

/// The program names by which the language with this index is looked for.
pub fn language_candidates(index: usize) -> (candidates: Vec<&'static str>)
    ensures
        names_of(candidates@) == candidates_of(index as int),
{
    let mut candidates: Vec<&'static str> = Vec::new();
    match index {
        0 => {
            candidates.push("cl.exe");
            candidates.push("gcc.exe");
            candidates.push("clang.exe");
        },
        1 => {
            candidates.push("cl.exe");
            candidates.push("g++.exe");
            candidates.push("clang++.exe");
        },
        2 => {
            candidates.push("csc.exe");
            candidates.push("dotnet.exe");
        },
        3 => {
            candidates.push("dmd.exe");
            candidates.push("ldc2.exe");
            candidates.push("gdc.exe");
        },
        4 => {
            candidates.push("java.exe");
            candidates.push("javac.exe");
        },
        5 => {
            candidates.push("kotlinc.exe");
            candidates.push("kotlinc-jvm.exe");
            candidates.push("kotlin.bat");
        },
        6 => {
            candidates.push("scala.exe");
            candidates.push("scalac.exe");
        },
        7 => {
            candidates.push("go.exe");
        },
        8 => {
            candidates.push("rustc.exe");
            candidates.push("cargo.exe");
        },
        9 => {
            candidates.push("swift.exe");
            candidates.push("swiftc.exe");
        },
        10 => {
            candidates.push("fsc.exe");
            candidates.push("fsi.exe");
            candidates.push("dotnet.exe");
        },
        11 => {
            candidates.push("gfortran.exe");
            candidates.push("ifort.exe");
        },
        12 => {
            candidates.push("fpc.exe");
            candidates.push("ppc386.exe");
            candidates.push("ppcx64.exe");
        },
        13 => {
            candidates.push("dcc32.exe");
            candidates.push("dcc64.exe");
            candidates.push("bds.exe");
        },
        14 => {
            candidates.push("gnat.exe");
            candidates.push("gcc.exe");
        },
        15 => {
            candidates.push("gcc.exe");
            candidates.push("clang.exe");
        },
        16 => {
            candidates.push("zig.exe");
        },
        17 => {
            candidates.push("nim.exe");
            candidates.push("nimble.exe");
        },
        18 => {
            candidates.push("python.exe");
            candidates.push("python3.exe");
            candidates.push("pypy.exe");
            candidates.push("pypy3.exe");
        },
        19 => {
            candidates.push("perl.exe");
        },
        20 => {
            candidates.push("php.exe");
            candidates.push("php-cgi.exe");
        },
        21 => {
            candidates.push("ruby.exe");
            candidates.push("irb.exe");
        },
        22 => {
            candidates.push("node.exe");
        },
        23 => {
            candidates.push("R.exe");
            candidates.push("Rscript.exe");
        },
        24 => {
            candidates.push("lua.exe");
            candidates.push("luajit.exe");
        },
        25 => {
            candidates.push("tclsh.exe");
            candidates.push("tclsh86.exe");
            candidates.push("tclsh8.6.exe");
        },
        26 => {
            candidates.push("julia.exe");
        },
        27 => {
            candidates.push("raku.exe");
            candidates.push("perl6.exe");
        },
        28 => {
            candidates.push("groovy.exe");
            candidates.push("groovyc.exe");
            candidates.push("grape.exe");
        },
        29 => {
            candidates.push("ghc.exe");
            candidates.push("ghci.exe");
            candidates.push("runghc.exe");
        },
        30 => {
            candidates.push("ocaml.exe");
            candidates.push("ocamlc.exe");
            candidates.push("ocamlopt.exe");
            candidates.push("ocamldebug.exe");
        },
        31 => {
            candidates.push("erl.exe");
            candidates.push("erlc.exe");
        },
        32 => {
            candidates.push("elixir.exe");
            candidates.push("iex.exe");
            candidates.push("mix.exe");
        },
        33 => {
            candidates.push("sbcl.exe");
        },
        34 => {
            candidates.push("clisp.exe");
        },
        35 => {
            candidates.push("clojure.exe");
            candidates.push("clj.exe");
        },
        36 => {
            candidates.push("guile.exe");
            candidates.push("mit-scheme.exe");
            candidates.push("racket.exe");
        },
        37 => {
            candidates.push("jruby.exe");
        },
        38 => {
            candidates.push("jython.exe");
        },
        39 => {
            candidates.push("emcc.bat");
            candidates.push("em++.bat");
            candidates.push("emcc");
            candidates.push("em++");
        },
        40 => {
            candidates.push("asc.cmd");
            candidates.push("asc");
        },
        41 => {
            candidates.push("matlab.exe");
        },
        42 => {
            candidates.push("octave-cli.exe");
            candidates.push("octave.exe");
        },
        43 => {
            candidates.push("swipl.exe");
            candidates.push("swipl-win.exe");
        },
        44 => {
            candidates.push("vbc.exe");
        },
        45 => {
            candidates.push("powershell.exe");
            candidates.push("pwsh.exe");
        },
        _ => {},
    }
    candidates
}

/// What a search for one program gave: the lines of its output, trimmed,
/// where the search succeeded, and nothing where it failed.
pub open spec fn where_results_of(succeeded: bool, stdout: Seq<u8>) -> Seq<Seq<char>> {
    if succeeded {
        trimmed_lines_of(utf8_lossy(stdout))
    } else {
        Seq::empty()
    }
}

/// Reads the paths out of the output of a search for one program.
/// `succeeded` tells whether the search ended with success; `stdout` is what
/// it printed.
pub fn where_results(succeeded: bool, stdout: &[u8]) -> (paths: Vec<String>)
    ensures
        texts_of(paths@) == where_results_of(succeeded, stdout@),
{
    if succeeded {
        let text = decode_lossy(stdout);
        trimmed_lines(text.as_str())
    } else {
        let paths: Vec<String> = Vec::new();
        paths
    }
}

/// The lines that list where a language is installed: each path behind three
/// spaces.
pub open spec fn path_lines(paths: Seq<Seq<char>>) -> Seq<char>
    decreases paths.len(),
{
    if paths.len() == 0 {
        Seq::empty()
    } else {
        path_lines(paths.drop_last()) + "   "@ + paths.last() + "\n"@
    }
}

/// The part of the section on one language: nothing where it was not found;
/// else a line with its name, the paths, and a blank line.
pub open spec fn language_block(name: Seq<char>, found: Seq<Seq<char>>) -> Seq<char> {
    if found.len() == 0 {
        Seq::empty()
    } else {
        name + " is installed at:\n"@ + path_lines(found) + "\n"@
    }
}

/// The paths found for the language with this index: none where `found` has
/// no entry for it.
pub open spec fn found_for(found: Seq<Seq<Seq<char>>>, index: int) -> Seq<Seq<char>> {
    if 0 <= index < found.len() {
        found[index]
    } else {
        Seq::empty()
    }
}

/// The parts of the section on the first `n` languages of the table.
pub open spec fn blocks_below(found: Seq<Seq<Seq<char>>>, n: nat) -> Seq<char>
    decreases n,
{
    if n == 0 {
        Seq::empty()
    } else {
        blocks_below(found, (n - 1) as nat) + language_block(
            language_name_of(n - 1),
            found_for(found, n - 1),
        )
    }
}

/// The paths that were found, language by language.
pub open spec fn finds_of(found: Seq<Vec<String>>) -> Seq<Seq<Seq<char>>> {
    Seq::new(found.len(), |i: int| texts_of(found[i]@))
}

/// Appends the part of the section on one language.
pub fn push_language_block(sb: &mut String, name: &str, found: &Vec<String>)
    ensures
        final(sb)@ == old(sb)@ + language_block(name@, texts_of(found@)),
{
    if found.len() == 0 {
        return;
    }
    sb.append(name);
    sb.append(" is installed at:\n");
    let ghost start = sb@;
    let ghost all = texts_of(found@);
    let mut k: usize = 0;
    while k < found.len()
        invariant
            k <= found@.len(),
            all == texts_of(found@),
            sb@ == start + path_lines(all.take(k as int)),
        decreases found@.len() - k,
    {
        assert(all.take(k + 1).drop_last() =~= all.take(k as int));
        sb.append("   ");
        sb.append(found[k].as_str());
        sb.append("\n");
        k += 1;
    }
    assert(all.take(k as int) =~= all);
    sb.append("\n");
}

/// Appends the section on the installed programming languages. `found[i]`
/// holds the paths at which the language with index `i` was found, under any
/// of its program names; a language without an entry counts as not found.
/// Only the languages that were found are listed, in the order of the table.
pub fn print_installed_languages(sb: &mut String, found: &Vec<Vec<String>>)
    ensures
        final(sb)@ == old(sb)@ + banner_of(uppercase_of("Installed Programming Languages"@))
            + blocks_below(finds_of(found@), LANGUAGE_COUNT as nat),
{
    add_section_header(sb, "Installed Programming Languages");
    let ghost start = sb@;
    let ghost finds = finds_of(found@);
    let mut index: usize = 0;
    while index < LANGUAGE_COUNT
        invariant
            index <= LANGUAGE_COUNT,
            finds == finds_of(found@),
            sb@ == start + blocks_below(finds, index as nat),
        decreases LANGUAGE_COUNT - index,
    {
        if index < found.len() {
            push_language_block(sb, language_name(index), &found[index]);
        }
        index += 1;
    }
}

} // verus!
