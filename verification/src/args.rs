//! Building argument lists for the processes that are run.

use vstd::prelude::*;

verus! {

/// The characters of each string.
pub open spec fn strs(v: Seq<String>) -> Seq<Seq<char>> {
    Seq::new(v.len(), |i: int| v[i]@)
}

/// `[flag, value]` when there is a value, nothing otherwise.
pub open spec fn opt_arg(flag: Seq<char>, v: Option<String>) -> Seq<Seq<char>> {
    match v {
        Some(s) => seq![flag, s@],
        None => Seq::empty(),
    }
}

/// `[flag]` when `b`, nothing otherwise.
pub open spec fn flag_if(b: bool, flag: Seq<char>) -> Seq<Seq<char>> {
    if b {
        seq![flag]
    } else {
        Seq::empty()
    }
}

/// `flag` before each of the values.
pub open spec fn repeat_arg(flag: Seq<char>, vals: Seq<Seq<char>>) -> Seq<Seq<char>>
    decreases vals.len(),
{
    if vals.len() == 0 {
        Seq::empty()
    } else {
        repeat_arg(flag, vals.drop_last()) + seq![flag, vals.last()]
    }
}

/// The values joined with `sep` between them.
pub open spec fn join(vals: Seq<Seq<char>>, sep: Seq<char>) -> Seq<char>
    decreases vals.len(),
{
    if vals.len() == 0 {
        Seq::empty()
    } else if vals.len() == 1 {
        vals[0]
    } else {
        join(vals.drop_last(), sep) + sep + vals.last()
    }
}

/// Appends one argument.
pub fn push_arg(out: &mut Vec<String>, s: &str)
    ensures
        strs(final(out)@) == strs(old(out)@).push(s@),
{
    out.push(String::from_str(s));
    assert(strs(out@) =~= strs(old(out)@).push(s@));
}

/// Appends `flag` and the value, if there is one.
pub fn push_opt(out: &mut Vec<String>, flag: &str, v: &Option<String>)
    ensures
        strs(final(out)@) == strs(old(out)@) + opt_arg(flag@, *v),
{
    match v {
        Some(s) => {
            push_arg(out, flag);
            push_arg(out, s.as_str());
        },
        None => {},
    }
    assert(strs(out@) =~= strs(old(out)@) + opt_arg(flag@, *v));
}

/// Appends `flag` when `b`.
pub fn push_flag_if(out: &mut Vec<String>, b: bool, flag: &str)
    ensures
        strs(final(out)@) == strs(old(out)@) + flag_if(b, flag@),
{
    if b {
        push_arg(out, flag);
    }
    assert(strs(out@) =~= strs(old(out)@) + flag_if(b, flag@));
}

/// Appends `flag` and each value in turn.
pub fn push_repeat(out: &mut Vec<String>, flag: &str, vals: &Vec<String>)
    ensures
        strs(final(out)@) == strs(old(out)@) + repeat_arg(flag@, strs(vals@)),
{
    let ghost start = strs(out@);
    let mut i: usize = 0;
    assert(strs(vals@).subrange(0, 0) =~= Seq::<Seq<char>>::empty());
    assert(start + repeat_arg(flag@, Seq::<Seq<char>>::empty()) =~= start);
    while i < vals.len()
        invariant
            i <= vals@.len(),
            strs(out@) == start + repeat_arg(flag@, strs(vals@).subrange(0, i as int)),
        decreases vals@.len() - i,
    {
        push_arg(out, flag);
        push_arg(out, vals[i].as_str());
        proof {
            let sub = strs(vals@).subrange(0, i + 1);
            assert(sub.drop_last() =~= strs(vals@).subrange(0, i as int));
            assert(strs(out@) =~= start + repeat_arg(flag@, sub));
        }
        i = i + 1;
    }
    assert(strs(vals@).subrange(0, i as int) =~= strs(vals@));
}

/// Appends each value in turn.
pub fn push_all(out: &mut Vec<String>, vals: &Vec<String>)
    ensures
        strs(final(out)@) == strs(old(out)@) + strs(vals@),
{
    let ghost start = strs(out@);
    let mut i: usize = 0;
    assert(start + strs(vals@).subrange(0, 0) =~= start);
    while i < vals.len()
        invariant
            i <= vals@.len(),
            strs(out@) == start + strs(vals@).subrange(0, i as int),
        decreases vals@.len() - i,
    {
        push_arg(out, vals[i].as_str());
        assert(strs(out@) =~= start + strs(vals@).subrange(0, i + 1));
        i = i + 1;
    }
    assert(strs(vals@).subrange(0, i as int) =~= strs(vals@));
}

/// The values joined with `sep` between them.
pub fn join_strings(vals: &Vec<String>, sep: &str) -> (r: String)
    ensures
        r@ == join(strs(vals@), sep@),
{
    let mut r = String::new();
    let mut i: usize = 0;
    assert(strs(vals@).subrange(0, 0) =~= Seq::<Seq<char>>::empty());
    while i < vals.len()
        invariant
            i <= vals@.len(),
            r@ == join(strs(vals@).subrange(0, i as int), sep@),
        decreases vals@.len() - i,
    {
        let ghost sub = strs(vals@).subrange(0, i + 1);
        assert(sub.drop_last() =~= strs(vals@).subrange(0, i as int));
        if i > 0 {
            r.append(sep);
        } else {
            assert(r@ =~= Seq::<char>::empty());
        }
        r.append(vals[i].as_str());
        assert(r@ =~= join(sub, sep@));
        i = i + 1;
    }
    assert(strs(vals@).subrange(0, i as int) =~= strs(vals@));
    r
}

} // verus!
