//! Positional wire values and the trailing-optional-argument defaulting rule.
//!
//! An RPC argument list is an ordered sequence of wire values in which a
//! distinguished unset value marks an optional argument the caller omitted.
//! Before a request is built, omitted trailing optional arguments are either
//! filled from a parallel list of defaults or trimmed away entirely, per the
//! rule implemented by [`handle_defaults`].

use vstd::prelude::*;
use vstd::string::*;

verus! {

/// A JSON-compatible positional value, carried as its serialized JSON text.
/// `Unset` is the distinguished null value: an omitted optional argument, or
/// JSON `null` itself on the wire.
#[derive(Debug, PartialEq, Eq)]
pub enum WireValue {
    Unset,
    Json(String),
}

/// Whether a wire value is the distinguished unset/null value.
pub open spec fn is_unset(v: WireValue) -> bool {
    v matches WireValue::Unset
}

impl WireValue {
    /// An exact copy of the value.
    pub fn duplicate(&self) -> (r: WireValue)
        ensures
            r == *self,
    {
        match self {
            WireValue::Unset => WireValue::Unset,
            WireValue::Json(s) => WireValue::Json(s.clone()),
        }
    }

    /// Whether this value is the distinguished unset/null value.
    pub fn is_unset(&self) -> (r: bool)
        ensures
            r == is_unset(*self),
    {
        match self {
            WireValue::Unset => true,
            WireValue::Json(_) => false,
        }
    }
}

/// The distinguished unset/null wire value.
pub fn null() -> (r: WireValue)
    ensures
        r == WireValue::Unset,
{
    WireValue::Unset
}

/// The wire text of an empty JSON array.
pub fn empty_arr() -> (r: WireValue)
    ensures
        r matches WireValue::Json(s) && s@ == "[]"@,
{
    WireValue::Json(String::from_str("[]"))
}

/// The index of the last supplied (non-unset) value of `args` in `[lo, hi)`,
/// or `lo - 1` if every value there is unset.
pub open spec fn last_supplied(args: Seq<WireValue>, lo: int, hi: int) -> int
    decreases hi - lo,
{
    if hi <= lo {
        lo - 1
    } else if !is_unset(args[hi - 1]) {
        hi - 1
    } else {
        last_supplied(args, lo, hi - 1)
    }
}

pub proof fn lemma_last_supplied(args: Seq<WireValue>, lo: int, hi: int)
    requires
        lo <= hi,
    ensures
        lo - 1 <= last_supplied(args, lo, hi) < hi || (lo == hi && last_supplied(
            args,
            lo,
            hi,
        ) == lo - 1),
        last_supplied(args, lo, hi) >= lo ==> !is_unset(args[last_supplied(args, lo, hi)]),
        forall|k: int| last_supplied(args, lo, hi) < k < hi ==> is_unset(args[k]),
    decreases hi - lo,
{
    if hi > lo && is_unset(args[hi - 1]) {
        lemma_last_supplied(args, lo, hi - 1);
    }
}

/// The number of required (never defaulted) leading arguments.
pub open spec fn required_len(args: Seq<WireValue>, defaults: Seq<WireValue>) -> int {
    args.len() - defaults.len()
}

/// The defaulting precondition: wherever an optional argument is unset but a
/// later optional argument was supplied, a default for that position must
/// exist.  A call that violates this is a caller bug, not a runtime
/// condition: it cannot be resolved into a valid positional call.
pub open spec fn defaults_complete(args: Seq<WireValue>, defaults: Seq<WireValue>) -> bool {
    let required = required_len(args, defaults);
    let last = last_supplied(args, required, args.len() as int);
    forall|j: int|
        required <= j <= last && is_unset(args[j]) ==> !is_unset(defaults[j - required])
}

/// The argument list actually sent: truncated just past the last supplied
/// optional argument (or to the required prefix when no optional argument was
/// supplied), with unset positions before it filled from `defaults`.
pub open spec fn defaulted_args(args: Seq<WireValue>, defaults: Seq<WireValue>) -> Seq<
    WireValue,
> {
    let required = required_len(args, defaults);
    let last = last_supplied(args, required, args.len() as int);
    let newlen = if last >= required {
        last + 1
    } else {
        required
    };
    Seq::new(
        newlen as nat,
        |j: int|
            if j < required || !is_unset(args[j]) {
                args[j]
            } else {
                defaults[j - required]
            },
    )
}

/// Substitute defaults into the unset positions of the trailing
/// `defaults.len()` arguments, except when they are trailing beyond every
/// supplied optional argument, in which case they are dropped from the
/// returned list altogether.  `defaults` is aligned to the last
/// `defaults.len()` positions of `args`; earlier arguments are required and
/// are never substituted.
pub fn handle_defaults(args: &Vec<WireValue>, defaults: &Vec<WireValue>) -> (res: Vec<
    WireValue,
>)
    requires
        defaults@.len() <= args@.len(),
        defaults_complete(args@, defaults@),
    ensures
        res@ == defaulted_args(args@, defaults@),
{
    let n: usize = args.len();
    let d: usize = defaults.len();
    let required: usize = n - d;
    let ghost gn = n as int;
    let mut hi: usize = n;
    while hi > required && args[hi - 1].is_unset()
        invariant
            required <= hi <= n,
            n == args@.len(),
            required == required_len(args@, defaults@),
            last_supplied(args@, required as int, hi as int) == last_supplied(
                args@,
                required as int,
                gn,
            ),
        decreases hi,
    {
        hi = hi - 1;
    }
    proof {
        lemma_last_supplied(args@, required as int, hi as int);
    }
    let ghost last = last_supplied(args@, required as int, gn);
    assert(hi > required ==> last == hi - 1);
    assert(hi == required ==> last == required - 1);
    let newlen: usize = if hi > required {
        hi
    } else {
        required
    };
    assert(newlen == if last >= required {
        last + 1
    } else {
        required as int
    });
    let mut res: Vec<WireValue> = Vec::new();
    let mut j: usize = 0;
    while j < newlen
        invariant
            j <= newlen,
            newlen <= n,
            n == args@.len(),
            d == defaults@.len(),
            required == n - d,
            res@.len() == j,
            newlen as int == defaulted_args(args@, defaults@).len(),
            forall|t: int| 0 <= t < j ==> res@[t] == defaulted_args(args@, defaults@)[t],
        decreases newlen - j,
    {
        if j < required {
            res.push(args[j].duplicate());
        } else if args[j].is_unset() {
            res.push(defaults[j - required].duplicate());
        } else {
            res.push(args[j].duplicate());
        }
        j = j + 1;
    }
    proof {
        assert(res@ =~= defaulted_args(args@, defaults@));
    }
    res
}

/// Whether `handle_defaults` may be applied to this argument and default
/// list: the defaults must not outnumber the arguments, and every unset
/// position before the last supplied optional argument must have a default.
pub fn defaults_compatible(args: &Vec<WireValue>, defaults: &Vec<WireValue>) -> (r: bool)
    ensures
        r == (defaults@.len() <= args@.len() && defaults_complete(args@, defaults@)),
{
    let n: usize = args.len();
    let d: usize = defaults.len();
    if d > n {
        return false;
    }
    let required: usize = n - d;
    let ghost gn = n as int;
    let mut hi: usize = n;
    while hi > required && args[hi - 1].is_unset()
        invariant
            required <= hi <= n,
            n == args@.len(),
            d == defaults@.len(),
            required == n - d,
            last_supplied(args@, required as int, hi as int) == last_supplied(
                args@,
                required as int,
                gn,
            ),
        decreases hi,
    {
        hi = hi - 1;
    }
    proof {
        lemma_last_supplied(args@, required as int, hi as int);
    }
    let ghost last = last_supplied(args@, required as int, gn);
    let bound: usize = if hi > required {
        hi - 1
    } else {
        required
    };
    assert(bound == if last >= required {
        last
    } else {
        required as int
    });
    let mut j: usize = required;
    while j < bound
        invariant
            required <= j <= bound,
            bound <= n,
            n == args@.len(),
            d == defaults@.len(),
            required == n - d,
            bound as int <= last + 1,
            last == last_supplied(args@, required as int, n as int),
            last < n,
            forall|t: int|
                required <= t < j && is_unset(args@[t]) ==> !is_unset(defaults@[t - required]),
        decreases bound - j,
    {
        if args[j].is_unset() && defaults[j - required].is_unset() {
            assert(!defaults_complete(args@, defaults@));
            return false;
        }
        j = j + 1;
    }
    proof {
        lemma_last_supplied(args@, required as int, gn);
        assert(last >= required as int ==> !is_unset(args@[last]));
        assert(defaults_complete(args@, defaults@)) by {
            assert forall|t: int|
                required <= t <= last && is_unset(args@[t]) implies !is_unset(
                defaults@[t - required],
            ) by {
                assert(t < bound || t == last);
            }
        }
    }
    true
}

} // verus!
