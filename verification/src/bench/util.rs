//! Command-line flags of the bench binaries: `--flag value` or `--flag=value`.
//! The caller collects the arguments; this module finds a flag's value.

use vstd::prelude::*;
use vstd::utf8::{
    encode_utf8, encode_scalar, encode_utf8_first_scalar, encode_utf8_valid_utf8,
    encode_utf8_decode_utf8, is_char_boundary, is_ascii_chars, is_ascii_chars_encode_utf8,
    pop_first_scalar, length_of_first_scalar,
};
use vstd::string::StringSliceAdditionalSpecFns;
use crate::bench::text::chars_of;

verus! {

/// `arg` is `flag`, then `=`, then the value.
pub open spec fn is_assignment(arg: Seq<char>, flag: Seq<char>) -> bool {
    arg.len() > flag.len() && arg.subrange(0, flag.len() as int) == flag && arg[flag.len() as int] == '='
}

/// The value given for `flag` from argument `i` on: at the first argument that
/// is `flag` itself, the argument after it (none if there is none); at the
/// first argument `flag=value`, the `value`.
pub open spec fn arg_value_from(args: Seq<Seq<char>>, flag: Seq<char>, i: int) -> Option<Seq<char>>
    decreases args.len() - i,
{
    if i < 0 || i >= args.len() {
        None
    } else if args[i] == flag {
        if i + 1 < args.len() {
            Some(args[i + 1])
        } else {
            None
        }
    } else if is_assignment(args[i], flag) {
        Some(args[i].subrange(flag.len() + 1int, args[i].len() as int))
    } else {
        arg_value_from(args, flag, i + 1)
    }
}

/// The value given for `flag` on the command line `args`.
pub open spec fn arg_value(args: Seq<Seq<char>>, flag: Seq<char>) -> Option<Seq<char>> {
    arg_value_from(args, flag, 0)
}

/// From argument `j` on, the value is the one the first argument at or after
/// `j` that is `flag` or `flag=...` gives, when no argument in between is
/// either.
proof fn lemma_skip_to(av: Seq<Seq<char>>, flag: Seq<char>, j: int, i: int)
    requires
        0 <= j <= i,
        forall|k: int|
            j <= k < i ==> #[trigger] av[k] != flag && !(av[k].len() > flag.len() && av[k].subrange(0, flag.len() as int)
                == flag && av[k][flag.len() as int] == '='),
    ensures
        arg_value_from(av, flag, j) == arg_value_from(av, flag, i),
    decreases i - j,
{
    if j < i {
        assert(av[j] != flag);
        lemma_skip_to(av, flag, j + 1, i);
    }
}

/// `--flag value`: where the first argument that is the flag or `flag=...` is
/// the flag itself at position `i`, the value is the next argument, whatever
/// it holds.
pub proof fn lemma_flag_takes_next_argument(av: Seq<Seq<char>>, flag: Seq<char>, i: int)
    requires
        0 <= i,
        i + 1 < av.len(),
        av[i] == flag,
        forall|k: int|
            0 <= k < i ==> #[trigger] av[k] != flag && !(av[k].len() > flag.len() && av[k].subrange(0, flag.len() as int)
                == flag && av[k][flag.len() as int] == '='),
    ensures
        arg_value(av, flag) == Some(av[i + 1]),
{
    lemma_skip_to(av, flag, 0, i);
}

/// A flag given last, with no argument after it, has no value.
pub proof fn lemma_flag_last_has_no_value(av: Seq<Seq<char>>, flag: Seq<char>)
    requires
        av.len() > 0,
        av.last() == flag,
        forall|k: int|
            0 <= k < av.len() - 1 ==> #[trigger] av[k] != flag && !(av[k].len() > flag.len() && av[k].subrange(
                0,
                flag.len() as int,
            ) == flag && av[k][flag.len() as int] == '='),
    ensures
        arg_value(av, flag) is None,
{
    lemma_skip_to(av, flag, 0, av.len() - 1);
}

/// `--flag=value`: where the first argument that is the flag or `flag=...` is
/// `flag=value` at position `i`, the value is what follows the `=`.
pub proof fn lemma_flag_assignment_value(av: Seq<Seq<char>>, flag: Seq<char>, i: int)
    requires
        0 <= i < av.len(),
        av[i].len() > flag.len(),
        av[i].subrange(0, flag.len() as int) == flag,
        av[i][flag.len() as int] == '=',
        forall|k: int|
            0 <= k < i ==> #[trigger] av[k] != flag && !(av[k].len() > flag.len() && av[k].subrange(0, flag.len() as int)
                == flag && av[k][flag.len() as int] == '='),
    ensures
        arg_value(av, flag) == Some(av[i].subrange(flag.len() + 1int, av[i].len() as int)),
{
    lemma_skip_to(av, flag, 0, i);
    assert(av[i] != flag);
}

/// A flag that no argument names, alone or as `flag=...`, has no value.
pub proof fn lemma_flag_absent(av: Seq<Seq<char>>, flag: Seq<char>)
    requires
        forall|k: int|
            0 <= k < av.len() ==> #[trigger] av[k] != flag && !(av[k].len() > flag.len() && av[k].subrange(
                0,
                flag.len() as int,
            ) == flag && av[k][flag.len() as int] == '='),
    ensures
        arg_value(av, flag) is None,
{
    lemma_skip_to(av, flag, 0, av.len() as int);
}

/// The characters of each argument.
pub open spec fn arg_chars(args: Seq<String>) -> Seq<Seq<char>> {
    args.map_values(|a: String| a@)
}

proof fn lemma_encode_concat(x: Seq<char>, y: Seq<char>)
    ensures
        encode_utf8(x + y) == encode_utf8(x) + encode_utf8(y),
    decreases x.len(),
{
    if x.len() > 0 {
        assert((x + y).drop_first() =~= x.drop_first() + y);
        lemma_encode_concat(x.drop_first(), y);
        assert(encode_utf8(x + y) =~= encode_utf8(x) + encode_utf8(y));
    } else {
        assert(x + y =~= y);
        assert(encode_utf8(x) + encode_utf8(y) =~= encode_utf8(y));
    }
}

/// The end of the encoding of `x` is a character boundary of that of `x + y`.
proof fn lemma_boundary_after(x: Seq<char>, y: Seq<char>)
    ensures
        is_char_boundary(encode_utf8(x + y), encode_utf8(x).len() as int),
    decreases x.len(),
{
    encode_utf8_valid_utf8(x + y);
    lemma_encode_concat(x, y);
    if x.len() > 0 {
        let b = encode_utf8(x + y);
        encode_utf8_first_scalar(x + y);
        assert(pop_first_scalar(b) =~= encode_utf8((x + y).drop_first()));
        assert((x + y).drop_first() =~= x.drop_first() + y);
        lemma_encode_concat(x.drop_first(), y);
        lemma_boundary_after(x.drop_first(), y);
        assert(encode_utf8(x).len() == encode_scalar(x[0] as u32).len() + encode_utf8(x.drop_first()).len());
        assert(length_of_first_scalar(b) == encode_scalar((x + y)[0] as u32).len());
    }
}

/// `a` with its first `n` characters dropped, where `n` is the length of
/// `flag=`.
fn value_after(a: &String, flag: &str, Ghost(fc): Ghost<Seq<char>>) -> (v: String)
    requires
        fc == flag@,
        is_assignment(a@, fc),
    ensures
        v@ == a@.subrange(fc.len() + 1int, a@.len() as int),
{
    let s = a.as_str();
    let ghost eq = seq!['='];
    let ghost t = a@.subrange(fc.len() + 1int, a@.len() as int);
    proof {
        assert(a@ =~= (fc + eq) + t);
        assert(is_ascii_chars(eq));
        is_ascii_chars_encode_utf8(eq);
        lemma_encode_concat(fc, eq);
        lemma_encode_concat(fc + eq, t);
        lemma_boundary_after(fc + eq, t);
        assert(s.spec_bytes() == encode_utf8(a@));
        assert(encode_utf8(fc + eq).len() == flag.spec_bytes().len() + 1);
        assert(encode_utf8(a@) == encode_utf8(fc + eq) + encode_utf8(t));
    }
    let total = s.as_bytes().len();
    let mid = flag.as_bytes().len() + 1;
    assert(mid <= total);
    let (_, rest) = s.split_at(mid);
    proof {
        assert(encode_utf8(rest@) =~= encode_utf8(t));
        encode_utf8_decode_utf8(rest@);
        encode_utf8_decode_utf8(t);
    }
    rest.to_owned()
}

/// Whether `a` is `f` followed by `=` and more.
fn chars_assignment(a: &Vec<char>, f: &Vec<char>) -> (r: bool)
    ensures
        r == is_assignment(a@, f@),
{
    if a.len() <= f.len() {
        return false;
    }
    let mut j: usize = 0;
    while j < f.len()
        invariant
            a@.len() > f@.len(),
            j <= f@.len(),
            forall|k: int| 0 <= k < j ==> a@[k] == f@[k],
        decreases f@.len() - j,
    {
        if a[j] != f[j] {
            assert(a@.subrange(0, f@.len() as int)[j as int] != f@[j as int]);
            return false;
        }
        j = j + 1;
    }
    assert(a@.subrange(0, f@.len() as int) =~= f@);
    a[f.len()] == '='
}

/// `lemma_flag_takes_next_argument` over the characters of the arguments.
proof fn lemma_next_argument_of(args: Seq<String>, flag: Seq<char>)
    ensures
        forall|i: int|
            0 <= i && i + 1 < args.len() && #[trigger] args[i]@ == flag && (forall|k: int|
                0 <= k < i ==> #[trigger] args[k]@ != flag && !(args[k]@.len() > flag.len()
                    && args[k]@.subrange(0, flag.len() as int) == flag && args[k]@[flag.len() as int] == '='))
                ==> arg_value(arg_chars(args), flag) == Some(args[i + 1]@),
{
    assert forall|i: int|
        0 <= i && i + 1 < args.len() && #[trigger] args[i]@ == flag && (forall|k: int|
            0 <= k < i ==> #[trigger] args[k]@ != flag && !(args[k]@.len() > flag.len()
                && args[k]@.subrange(0, flag.len() as int) == flag && args[k]@[flag.len() as int] == '='))
        implies arg_value(arg_chars(args), flag) == Some(args[i + 1]@) by {
        let av = arg_chars(args);
        assert forall|k: int| 0 <= k < i implies #[trigger] av[k] != flag && !(av[k].len() > flag.len()
            && av[k].subrange(0, flag.len() as int) == flag && av[k][flag.len() as int] == '=') by {
            assert(av[k] == args[k]@);
        }
        lemma_flag_takes_next_argument(av, flag, i);
    }
}

/// The value given for `flag` in `args`: `--flag value` or `--flag=value`,
/// whichever comes first.
pub fn find_arg(args: &Vec<String>, flag: &str) -> (r: Option<String>)
    ensures
        match arg_value(arg_chars(args@), flag@) {
            Some(v) => r matches Some(s) && s@ == v,
            None => r is None,
        },
        // `--flag value`: the next argument, whatever it holds
        forall|i: int|
            0 <= i && i + 1 < args@.len() && #[trigger] args@[i]@ == flag@ && (forall|k: int|
                0 <= k < i ==> #[trigger] args@[k]@ != flag@ && !(args@[k]@.len() > flag@.len()
                    && args@[k]@.subrange(0, flag@.len() as int) == flag@ && args@[k]@[flag@.len() as int] == '='))
                ==> (r matches Some(s) && s@ == args@[i + 1]@),
{
    proof {
        lemma_next_argument_of(args@, flag@);
    }
    let ghost av = arg_chars(args@);
    let fc = chars_of(flag);
    let mut i: usize = 0;
    while i < args.len()
        invariant
            av == arg_chars(args@),
            fc@ == flag@,
            i <= args@.len(),
            arg_value(av, flag@) == arg_value_from(av, flag@, i as int),
        decreases args@.len() - i,
    {
        let ac = chars_of(args[i].as_str());
        assert(ac@ == av[i as int]);
        if ac.len() == fc.len() && chars_eq(&ac, &fc) {
            assert(av[i as int] =~= flag@);
            proof {
                lemma_next_argument_of(args@, flag@);
            }
            if i + 1 < args.len() {
                return Some(args[i + 1].clone());
            }
            return None;
        }
        proof {
            if av[i as int] == flag@ {
                assert(ac@ =~= fc@);
            }
        }
        if chars_assignment(&ac, &fc) {
            proof {
                lemma_next_argument_of(args@, flag@);
            }
            return Some(value_after(&args[i], flag, Ghost(fc@)));
        }
        i = i + 1;
    }
    None
}

/// The value of a flag with a fallback: `parsed` is the flag's value as the
/// caller's type parsed it, `None` where the flag is missing or its value does
/// not parse; then the result is `default`.
pub fn arg_or<T>(parsed: Option<T>, default: T) -> (r: T)
    ensures
        r == match parsed {
            Some(v) => v,
            None => default,
        },
{
    match parsed {
        Some(v) => v,
        None => default,
    }
}

/// Whether two character vectors of one length are equal.
fn chars_eq(a: &Vec<char>, b: &Vec<char>) -> (r: bool)
    requires
        a@.len() == b@.len(),
    ensures
        r <==> a@ == b@,
{
    let mut j: usize = 0;
    while j < a.len()
        invariant
            a@.len() == b@.len(),
            j <= a@.len(),
            forall|k: int| 0 <= k < j ==> a@[k] == b@[k],
        decreases a@.len() - j,
    {
        if a[j] != b[j] {
            return false;
        }
        j = j + 1;
    }
    assert(a@ =~= b@);
    true
}

} // verus!
