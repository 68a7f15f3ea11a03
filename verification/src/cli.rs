//! The argument handling of the DSP adapter's command line: the duty mode
//! and behaviour spellings, repeatable `--claim key=value` pairs, and the
//! option list itself. Reading files and printing stay with the caller.

use vstd::prelude::*;
use vstd::string::*;
use crate::text::{str_eq, owned, concat2, debug_quoted, debug_str, chars_of};
use crate::rdf::views;
use crate::rdf_translate::{ClaimV, claim_pos, lemma_claim_pos};
use crate::suite_index::{first_index, first_index_from};
use crate::wire::{DutyMode, Behaviour, ClaimValue, Claims, duty_mode_wire_name, behaviour_wire_name, lemma_config_wire_name_lengths};

verus! {

/// The parsed command-line options.
#[derive(Debug, PartialEq, Eq)]
pub struct Args {
    pub files: Vec<String>,
    pub dataset_id: Option<String>,
    pub action: Option<String>,
    pub claims: Claims,
    pub duty_mode: DutyMode,
    pub behaviour: Behaviour,
}

/// The value of a claim value.
pub open spec fn claim_v(c: ClaimValue) -> ClaimV {
    match c {
        ClaimValue::Single(s) => ClaimV::Single(s@),
        ClaimValue::Multi(v) => ClaimV::Multi(views(v@)),
    }
}

/// The entries of a claims map, as values.
pub open spec fn claims_view(c: Claims) -> Seq<(Seq<char>, ClaimV)> {
    c.entries@.map_values(|e: (String, ClaimValue)| (e.0@, claim_v(e.1)))
}

/// The duty mode an option value names.
pub open spec fn duty_mode_arg(s: Seq<char>) -> Result<DutyMode, Seq<char>> {
    if s == "advise"@ {
        Ok(DutyMode::Advise)
    } else if s == "deny"@ {
        Ok(DutyMode::Deny)
    } else {
        Err("--duty-mode must be \"advise\" or \"deny\", got "@ + debug_str(s))
    }
}

/// The behaviour an option value names; `default` is `closed`.
pub open spec fn behaviour_arg(s: Seq<char>) -> Result<Behaviour, Seq<char>> {
    if s == "open"@ {
        Ok(Behaviour::Open)
    } else if s == "closed"@ || s == "default"@ {
        Ok(Behaviour::Closed)
    } else {
        Err("--behaviour must be \"open\", \"closed\", or \"default\", got "@ + debug_str(s))
    }
}

/// An option value names a duty mode exactly when it is that mode's wire
/// name, and a behaviour exactly when it is that behaviour's wire name or,
/// for `closed`, the word `default`; any other value is refused.
pub proof fn an_option_value_selects_the_setting_so_named(s: Seq<char>, d: DutyMode, b: Behaviour)
    ensures
        duty_mode_arg(duty_mode_wire_name(d)) == Ok::<DutyMode, Seq<char>>(d),
        duty_mode_arg(s) == Ok::<DutyMode, Seq<char>>(d) <==> s == duty_mode_wire_name(d),
        behaviour_arg(behaviour_wire_name(b)) == Ok::<Behaviour, Seq<char>>(b),
        behaviour_arg(s) == Ok::<Behaviour, Seq<char>>(b) <==> (s == behaviour_wire_name(b) || (s == "default"@ && b == Behaviour::Closed)),
{
    lemma_config_wire_name_lengths();
}

/// The claims after one `key=value` argument: split at the first `=`, a
/// new key added as a single value, a repeated key turned into (or
/// extended as) a multi-valued claim.
pub open spec fn claim_added(es: Seq<(Seq<char>, ClaimV)>, arg: Seq<char>) -> Result<Seq<(Seq<char>, ClaimV)>, Seq<char>> {
    let k = first_index(arg, '=');
    if k < 0 {
        Err("--claim expects key=value, got "@ + debug_str(arg))
    } else {
        let key = arg.subrange(0, k);
        let value = arg.subrange(k + 1, arg.len() as int);
        let p = claim_pos(es, key);
        if p < 0 {
            Ok(es.push((key, ClaimV::Single(value))))
        } else {
            Ok(es.update(p, (key, match es[p].1 {
                ClaimV::Single(first) => ClaimV::Multi(seq![first, value]),
                ClaimV::Multi(vs) => ClaimV::Multi(vs.push(value)),
            })))
        }
    }
}

/// The value of parsed options.
pub struct ArgsV {
    pub files: Seq<Seq<char>>,
    pub dataset_id: Option<Seq<char>>,
    pub action: Option<Seq<char>>,
    pub claims: Seq<(Seq<char>, ClaimV)>,
    pub duty_mode: DutyMode,
    pub behaviour: Behaviour,
}

pub open spec fn sopt(o: Option<String>) -> Option<Seq<char>> {
    match o {
        Some(s) => Some(s@),
        None => None,
    }
}

pub open spec fn args_view(a: Args) -> ArgsV {
    ArgsV {
        files: views(a.files@),
        dataset_id: sopt(a.dataset_id),
        action: sopt(a.action),
        claims: claims_view(a.claims),
        duty_mode: a.duty_mode,
        behaviour: a.behaviour,
    }
}

/// The options before any argument: no files, no claims, `advise`,
/// `closed`.
pub open spec fn initial_args() -> ArgsV {
    ArgsV { files: Seq::empty(), dataset_id: None, action: None, claims: Seq::empty(),
        duty_mode: DutyMode::Advise, behaviour: Behaviour::Closed }
}

/// The error for an option given last, without its value.
pub open spec fn needs_value(name: Seq<char>) -> Seq<char> {
    name + " needs a value"@
}

/// The options `args` from position `i` on add to `acc`: each option takes
/// the argument after it; anything else is an input file.
pub open spec fn args_from(args: Seq<Seq<char>>, i: int, acc: ArgsV) -> Result<ArgsV, Seq<char>>
    decreases args.len() - i,
{
    if i < 0 || i >= args.len() {
        Ok(acc)
    } else {
        let a = args[i];
        let has_value = i + 1 < args.len();
        if a == "--dataset-id"@ {
            if !has_value { Err(needs_value(a)) } else { args_from(args, i + 2, ArgsV { dataset_id: Some(args[i + 1]), ..acc }) }
        } else if a == "--action"@ {
            if !has_value { Err(needs_value(a)) } else { args_from(args, i + 2, ArgsV { action: Some(args[i + 1]), ..acc }) }
        } else if a == "--claim"@ {
            if !has_value {
                Err(needs_value(a))
            } else {
                match claim_added(acc.claims, args[i + 1]) {
                    Err(e) => Err(e),
                    Ok(c) => args_from(args, i + 2, ArgsV { claims: c, ..acc }),
                }
            }
        } else if a == "--duty-mode"@ {
            if !has_value {
                Err(needs_value(a))
            } else {
                match duty_mode_arg(args[i + 1]) {
                    Err(e) => Err(e),
                    Ok(d) => args_from(args, i + 2, ArgsV { duty_mode: d, ..acc }),
                }
            }
        } else if a == "--behaviour"@ {
            if !has_value {
                Err(needs_value(a))
            } else {
                match behaviour_arg(args[i + 1]) {
                    Err(e) => Err(e),
                    Ok(b) => args_from(args, i + 2, ArgsV { behaviour: b, ..acc }),
                }
            }
        } else {
            args_from(args, i + 1, ArgsV { files: acc.files.push(a), ..acc })
        }
    }
}

/// The duty mode `--duty-mode` names.
pub fn parse_duty_mode(s: &str) -> (r: Result<DutyMode, String>)
    ensures
        match duty_mode_arg(s@) {
            Ok(d) => r == Ok::<DutyMode, String>(d),
            Err(e) => r is Err && r->Err_0@ == e,
        },
{
    if str_eq(s, "advise") {
        Ok(DutyMode::Advise)
    } else if str_eq(s, "deny") {
        Ok(DutyMode::Deny)
    } else {
        let q = debug_quoted(s);
        Err(concat2("--duty-mode must be \"advise\" or \"deny\", got ", q.as_str()))
    }
}

/// The behaviour `--behaviour` names.
pub fn parse_behaviour(s: &str) -> (r: Result<Behaviour, String>)
    ensures
        match behaviour_arg(s@) {
            Ok(b) => r == Ok::<Behaviour, String>(b),
            Err(e) => r is Err && r->Err_0@ == e,
        },
{
    if str_eq(s, "open") {
        Ok(Behaviour::Open)
    } else if str_eq(s, "closed") || str_eq(s, "default") {
        Ok(Behaviour::Closed)
    } else {
        let q = debug_quoted(s);
        Err(concat2("--behaviour must be \"open\", \"closed\", or \"default\", got ", q.as_str()))
    }
}

/// A copy of a list of strings.
fn copy_strings(v: &Vec<String>) -> (r: Vec<String>)
    ensures
        views(r@) == views(v@),
{
    let mut r: Vec<String> = Vec::new();
    let mut i: usize = 0;
    while i < v.len()
        invariant
            i <= v@.len(),
            r@.len() == i,
            forall|j: int| 0 <= j < i ==> (#[trigger] r@[j])@ == v@[j]@,
        decreases v.len() - i,
    {
        r.push(v[i].clone());
        i = i + 1;
    }
    assert(views(r@) =~= views(v@));
    r
}

/// Adds one `--claim key=value` argument to `claims`; on an error `claims`
/// is left as it was.
pub fn add_claim(claims: &mut Claims, arg: &str) -> (r: Result<(), String>)
    ensures
        match claim_added(claims_view(*old(claims)), arg@) {
            Ok(v) => r is Ok && claims_view(*final(claims)) == v,
            Err(e) => r is Err && r->Err_0@ == e && *final(claims) == *old(claims),
        },
{
    let cs = chars_of(arg);
    let k = match first_index_from(&cs, '=', 0) {
        Some(k) => k,
        None => {
            assert(cs@.subrange(0, cs@.len() as int) =~= arg@);
            let q = debug_quoted(arg);
            return Err(concat2("--claim expects key=value, got ", q.as_str()));
        },
    };
    assert(cs@.subrange(0, cs@.len() as int) =~= arg@);
    let n = arg.unicode_len();
    let key = owned(arg.substring_char(0, k));
    let value = owned(arg.substring_char(k + 1, n));
    assert(k as int == first_index(arg@, '='));
    assert(key@ == arg@.subrange(0, k as int));
    assert(value@ == arg@.subrange(k + 1, arg@.len() as int));
    let ghost es = claims_view(*claims);
    proof { lemma_claim_pos(es, key@); }
    let mut found: Option<usize> = None;
    let mut i: usize = 0;
    while i < claims.entries.len()
        invariant_except_break
            found is None,
        invariant
            i <= claims.entries@.len(),
            es == claims_view(*claims),
            forall|j: int| 0 <= j < i ==> (#[trigger] claims.entries@[j]).0@ != key@,
        ensures
            match found {
                Some(j) => j < claims.entries@.len() && claims.entries@[j as int].0@ == key@
                    && forall|x: int| 0 <= x < j ==> (#[trigger] claims.entries@[x]).0@ != key@,
                None => forall|x: int| 0 <= x < claims.entries@.len() ==> (#[trigger] claims.entries@[x]).0@ != key@,
            },
        decreases claims.entries.len() - i,
    {
        if str_eq(claims.entries[i].0.as_str(), key.as_str()) {
            found = Some(i);
            break;
        }
        i = i + 1;
    }
    match found {
        None => {
            proof {
                let p = claim_pos(es, key@);
                if p >= 0 {
                    assert(es[p].0 == claims.entries@[p].0@);
                }
            }
            let ghost before = claims.entries@;
            claims.entries.push((key, ClaimValue::Single(value)));
            assert(claims_view(*claims) =~= es.push((key@, ClaimV::Single(value@))));
        },
        Some(j) => {
            proof {
                let p = claim_pos(es, key@);
                assert(es[j as int].0 == claims.entries@[j as int].0@);
                if 0 <= p < j as int {
                    assert(es[p].0 == claims.entries@[p].0@);
                }
            }
            let updated = match &claims.entries[j].1 {
                ClaimValue::Single(first) => {
                    let v = vec![first.clone(), value];
                    assert(views(v@) =~= seq![first@, value@]);
                    ClaimValue::Multi(v)
                },
                ClaimValue::Multi(values) => {
                    let mut v = copy_strings(values);
                    let ghost before = views(v@);
                    v.push(value);
                    assert(views(v@) =~= before.push(value@));
                    ClaimValue::Multi(v)
                },
            };
            let ghost old_entries = claims.entries@;
            claims.entries.set(j, (key, updated));
            assert(claims_view(*claims) =~= claim_added(es, arg@)->Ok_0);
        },
    }
    Ok(())
}

/// Parses the options after the command: `--dataset-id`, `--action`,
/// `--claim` (repeatable), `--duty-mode`, `--behaviour`, each with the
/// argument after it, and input files.
pub fn parse_args(args: &[String]) -> (r: Result<Args, String>)
    ensures
        match args_from(views(args@), 0, initial_args()) {
            Ok(v) => r is Ok && args_view(r->Ok_0) == v,
            Err(e) => r is Err && r->Err_0@ == e,
        },
{
    let ghost av = views(args@);
    let mut parsed = Args {
        files: Vec::new(),
        dataset_id: None,
        action: None,
        claims: Claims::new(),
        duty_mode: DutyMode::Advise,
        behaviour: Behaviour::Closed,
    };
    assert(args_view(parsed).files =~= initial_args().files);
    assert(args_view(parsed).claims =~= initial_args().claims);
    let mut i: usize = 0;
    while i < args.len()
        invariant
            av == views(args@),
            i <= args@.len() + 1,
            args_from(av, 0, initial_args()) == args_from(av, i as int, args_view(parsed)),
        decreases args.len() - i,
    {
        let a = args[i].as_str();
        assert(av[i as int] == a@);
        let has_value = i + 1 < args.len();
        if has_value {
            assert(av[i + 1] == args@[i + 1]@);
        }
        if str_eq(a, "--dataset-id") {
            if !has_value {
                return Err(concat2(a, " needs a value"));
            }
            parsed.dataset_id = Some(args[i + 1].clone());
            i = i + 2;
        } else if str_eq(a, "--action") {
            if !has_value {
                return Err(concat2(a, " needs a value"));
            }
            parsed.action = Some(args[i + 1].clone());
            i = i + 2;
        } else if str_eq(a, "--claim") {
            if !has_value {
                return Err(concat2(a, " needs a value"));
            }
            match add_claim(&mut parsed.claims, args[i + 1].as_str()) {
                Ok(()) => {},
                Err(e) => return Err(e),
            }
            i = i + 2;
        } else if str_eq(a, "--duty-mode") {
            if !has_value {
                return Err(concat2(a, " needs a value"));
            }
            match parse_duty_mode(args[i + 1].as_str()) {
                Ok(d) => { parsed.duty_mode = d; },
                Err(e) => return Err(e),
            }
            i = i + 2;
        } else if str_eq(a, "--behaviour") {
            if !has_value {
                return Err(concat2(a, " needs a value"));
            }
            match parse_behaviour(args[i + 1].as_str()) {
                Ok(b) => { parsed.behaviour = b; },
                Err(e) => return Err(e),
            }
            i = i + 2;
        } else {
            let ghost before = args_view(parsed);
            parsed.files.push(args[i].clone());
            assert(args_view(parsed).files =~= before.files.push(a@));
            i = i + 1;
        }
    }
    Ok(parsed)
}

} // verus!
