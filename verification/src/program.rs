//! Whole-program translation: one translation unit, or a directory of
//! units behind one generator, bootstrap first, counters global throughout.
//! The surrounding file handling (reading lines, stripping comments,
//! deriving unit names) is the caller's: these functions take the trimmed,
//! comment-free instruction lines of each unit.

use vstd::prelude::*;
use vstd::string::StringExecFns;
use crate::instr::VmError;
use crate::parser::parse_instruction;
use crate::parser::spec_parse;
use crate::translator::GenState;
use crate::translator::Translator;
use crate::translator::bootstrap_lines;
use crate::translator::spec_lines;
use crate::translator::spec_step;

verus! {

/// One translation unit: the name that namespaces its static addresses,
/// and its instruction lines, already trimmed and comment-free.
pub struct TranslationUnit {
    pub name: String,
    pub lines: Vec<String>,
}

/// A fresh generator state for the namespace `sb`.
pub open spec fn init_state(sb: Seq<char>) -> GenState {
    GenState { static_base: sb, next_instr: 0, call_counter: 0 }
}

/// Translating a unit's lines in order: each line is parsed, refused lines
/// abort with their error, and accepted instructions append their lines and
/// step the generator state.
pub open spec fn spec_run(lines: Seq<Seq<char>>, st: GenState) -> Result<
    (Seq<Seq<char>>, GenState),
    VmError,
>
    decreases lines.len(),
{
    if lines.len() == 0 {
        Ok((Seq::<Seq<char>>::empty(), st))
    } else {
        match spec_parse(lines[0]) {
            Err(e) => Err(e),
            Ok(i) => {
                if !i.gen_ok() {
                    Err(i.gen_err())
                } else {
                    match spec_run(lines.drop_first(), spec_step(i, st)) {
                        Err(e) => Err(e),
                        Ok(r) => Ok((spec_lines(i, st) + r.0, r.1)),
                    }
                }
            },
        }
    }
}

/// Translating a sequence of units: each unit runs under its own namespace,
/// while the counters carry over from unit to unit.
pub open spec fn spec_run_units(units: Seq<TranslationUnit>, st: GenState) -> Result<
    (Seq<Seq<char>>, GenState),
    VmError,
>
    decreases units.len(),
{
    if units.len() == 0 {
        Ok((Seq::<Seq<char>>::empty(), st))
    } else {
        let st0 = GenState { static_base: units[0].name@, ..st };
        match spec_run(units[0].lines.deep_view(), st0) {
            Err(e) => Err(e),
            Ok(r) => match spec_run_units(units.drop_first(), r.1) {
                Err(e) => Err(e),
                Ok(r2) => Ok((r.0 + r2.0, r2.1)),
            },
        }
    }
}

/// A whole directory-level program: the bootstrap prologue exactly once at
/// the very start, then every unit in order behind one generator.
pub open spec fn spec_translate_directory(units: Seq<TranslationUnit>) -> Result<
    Seq<Seq<char>>,
    VmError,
> {
    let st0 = init_state(Seq::<char>::empty());
    let st1 = GenState {
        static_base: st0.static_base,
        next_instr: st0.next_instr + 46,
        call_counter: st0.call_counter + 1,
    };
    match spec_run_units(units, st1) {
        Err(e) => Err(e),
        Ok(r) => Ok(bootstrap_lines(st0) + r.0),
    }
}

/// Runs one unit's lines through the generator, stopping at the first
/// refused line with the generator's output discarded by the caller.
fn run_unit(t: &mut Translator, lines: &Vec<String>) -> (r: Result<(), VmError>)
    requires
        old(t).wf(),
    ensures
        final(t).wf(),
        match r {
            Ok(()) => spec_run(lines.deep_view(), old(t).st()) matches Ok(o)
                && final(t).output.deep_view() == old(t).output.deep_view() + o.0
                && final(t).st() == o.1,
            Err(e) => spec_run(lines.deep_view(), old(t).st()) == Err::<
                (Seq<Seq<char>>, GenState),
                VmError,
            >(e),
        },
{
    let ghost all = lines.deep_view();
    let ghost mut acc: Seq<Seq<char>> = Seq::<Seq<char>>::empty();
    let n = lines.len();
    let mut k: usize = 0;
    proof {
        assert(all.skip(0) =~= all);
        assert(t.output.deep_view() =~= old(t).output.deep_view() + acc);
        match spec_run(all, old(t).st()) {
            Ok(o) => {
                assert(acc + o.0 =~= o.0);
            },
            Err(_) => {},
        }
    }
    while k < n
        invariant
            k <= n,
            n == lines@.len(),
            all == lines.deep_view(),
            t.wf(),
            t.output.deep_view() == old(t).output.deep_view() + acc,
            spec_run(all, old(t).st()) == (match spec_run(all.skip(k as int), t.st()) {
                Ok(o) => Ok::<(Seq<Seq<char>>, GenState), VmError>((acc + o.0, o.1)),
                Err(e) => Err::<(Seq<Seq<char>>, GenState), VmError>(e),
            }),
        decreases n - k,
    {
        let line = &lines[k];
        proof {
            assert(all.skip(k as int)[0] == line@);
            assert(all.skip(k as int).drop_first() =~= all.skip(k as int + 1));
        }
        let parsed = parse_instruction(line.as_str());
        match parsed {
            Err(e) => {
                return Err(e);
            },
            Ok(instr) => {
                let ghost pre_st = t.st();
                let ghost pre_acc = acc;
                let stepped = t.translate(&instr);
                match stepped {
                    Err(e) => {
                        return Err(e);
                    },
                    Ok(()) => {
                        proof {
                            acc = pre_acc + spec_lines(instr@, pre_st);
                            assert(t.output.deep_view() =~= old(t).output.deep_view() + acc);
                            match spec_run(all.skip(k as int + 1), t.st()) {
                                Ok(o2) => {
                                    assert(pre_acc + (spec_lines(instr@, pre_st) + o2.0) =~= acc
                                        + o2.0);
                                },
                                Err(_) => {},
                            }
                        }
                    },
                }
            },
        }
        k += 1;
    }
    proof {
        assert(all.skip(n as int) =~= Seq::<Seq<char>>::empty());
        assert(acc + Seq::<Seq<char>>::empty() =~= acc);
    }
    Ok(())
}

/// Translates one unit: parses each line in order and generates its code
/// under the unit's namespace, returning the generated lines, or the first
/// error with no partial output.
pub fn translate_file(static_base: &str, lines: &Vec<String>) -> (r: Result<Vec<String>, VmError>)
    ensures
        match r {
            Ok(out) => spec_run(lines.deep_view(), init_state(static_base@)) matches Ok(o)
                && out.deep_view() == o.0,
            Err(e) => spec_run(lines.deep_view(), init_state(static_base@)) == Err::<
                (Seq<Seq<char>>, GenState),
                VmError,
            >(e),
        },
{
    let mut t = Translator::new(static_base.to_owned());
    match run_unit(&mut t, lines) {
        Err(e) => Err(e),
        Ok(()) => {
            proof {
                assert(Seq::<Seq<char>>::empty() + spec_run(
                    lines.deep_view(),
                    init_state(static_base@),
                )->Ok_0.0 =~= spec_run(lines.deep_view(), init_state(static_base@))->Ok_0.0);
            }
            Ok(t.output)
        },
    }
}

/// Translates a directory-level program: the bootstrap prologue first, then
/// every unit in the given order behind one generator, so call-site labels
/// and instruction addresses stay unique program-wide; the first error
/// aborts the whole run with no partial output.
pub fn translate_directory(units: &Vec<TranslationUnit>) -> (r: Result<Vec<String>, VmError>)
    ensures
        match r {
            Ok(out) => spec_translate_directory(units@) matches Ok(o) && out.deep_view() == o,
            Err(e) => spec_translate_directory(units@) == Err::<Seq<Seq<char>>, VmError>(e),
        },
{
    let mut t = Translator::new(String::new());
    t.set_bootstrap();
    let n = units.len();
    let mut u: usize = 0;
    proof {
        assert(units@.skip(0) =~= units@);
        assert(t.output.deep_view() =~= bootstrap_lines(init_state(Seq::<char>::empty())));
        match spec_run_units(units@, t.st()) {
            Ok(r) => {
                assert(t.output.deep_view() + r.0 =~= bootstrap_lines(
                    init_state(Seq::<char>::empty()),
                ) + r.0);
            },
            Err(_) => {},
        }
    }
    while u < n
        invariant
            u <= n,
            n == units@.len(),
            t.wf(),
            spec_translate_directory(units@) == (match spec_run_units(units@.skip(u as int), t.st()) {
                Ok(r) => Ok::<Seq<Seq<char>>, VmError>(t.output.deep_view() + r.0),
                Err(e) => Err::<Seq<Seq<char>>, VmError>(e),
            }),
        decreases n - u,
    {
        proof {
            assert(units@.skip(u as int)[0] == units@[u as int]);
            assert(units@.skip(u as int).drop_first() =~= units@.skip(u as int + 1));
        }
        let ghost pre_deep = t.output.deep_view();
        let ghost st_head = t.st();
        t.static_base = units[u].name.clone();
        proof {
            assert(t.st() =~~= (GenState { static_base: units@[u as int].name@, ..st_head }));
        }
        let ghost st0v = t.st();
        match run_unit(&mut t, &units[u].lines) {
            Err(e) => {
                return Err(e);
            },
            Ok(()) => {
                proof {
                    let o0 = spec_run(units@[u as int].lines.deep_view(), st0v)->Ok_0;
                    assert(t.output.deep_view() == pre_deep + o0.0);
                    match spec_run_units(units@.skip(u as int + 1), t.st()) {
                        Ok(r2) => {
                            assert(pre_deep + (o0.0 + r2.0) =~= t.output.deep_view() + r2.0);
                        },
                        Err(_) => {},
                    }
                }
            },
        }
        u += 1;
    }
    proof {
        assert(units@.skip(n as int) =~= Seq::<TranslationUnit>::empty());
        match spec_run_units(Seq::<TranslationUnit>::empty(), t.st()) {
            Ok(r) => {
                assert(t.output.deep_view() + r.0 =~= t.output.deep_view());
            },
            Err(_) => {},
        }
    }
    Ok(t.output)
}

} // verus!
