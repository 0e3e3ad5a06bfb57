//! How a validator that accepts one of several expected values names them.

use vstd::prelude::*;
use vstd::string::*;

verus! {

/// The strings joined by the separator.
pub open spec fn seq_join(list: Seq<Seq<char>>, sep: Seq<char>) -> Seq<char>
    decreases list.len(),
{
    if list.len() == 0 {
        seq![]
    } else if list.len() == 1 {
        list[0]
    } else {
        seq_join(list.drop_last(), sep) + sep + list.last()
    }
}

/// How the expected values are listed in an error: the last one behind " or ", the ones
/// before it joined by ", ".
pub open spec fn expected_repr(repr_args: Seq<Seq<char>>) -> Seq<char> {
    if repr_args.len() <= 1 {
        repr_args.last()
    } else {
        seq_join(repr_args.drop_last(), ", "@) + " or "@ + repr_args.last()
    }
}

/// The validator's name: the base name with the expected values in brackets.
pub open spec fn expected_name(repr_args: Seq<Seq<char>>, base_name: Seq<char>) -> Seq<char> {
    base_name + "["@ + seq_join(repr_args, ","@) + "]"@
}

/// The views of a vector of strings.
pub open spec fn strings_view(list: Seq<String>) -> Seq<Seq<char>> {
    list.map_values(|s: String| s@)
}

/// Joins the first `count` strings of the list with the separator.
fn join_first(list: &Vec<String>, count: usize, sep: &str) -> (r: String)
    requires
        count <= list.len(),
    ensures
        r@ == seq_join(strings_view(list@).take(count as int), sep@),
{
    let ghost all = strings_view(list@);
    let mut r = String::new();
    assert(all.take(0) == Seq::<Seq<char>>::empty());
    let mut i: usize = 0;
    while i < count
        invariant
            i <= count <= list.len(),
            all == strings_view(list@),
            r@ == seq_join(all.take(i as int), sep@),
        decreases count - i,
    {
        assert(all.take(i + 1).drop_last() == all.take(i as int));
        assert(all.take(i + 1).last() == list@[i as int]@);
        if i > 0 {
            r.append(sep);
        } else {
            assert(all.take(i as int) == Seq::<Seq<char>>::empty());
            assert(r@ == Seq::<char>::empty());
            assert(r@ + list@[i as int]@ == list@[i as int]@);
        }
        r.append(list[i].as_str());
        i = i + 1;
    }
    r
}

/// The repr of the expected values, and the validator's name built from the base name and
/// them; there is at least one value.
pub fn expected_repr_name(repr_args: Vec<String>, base_name: &str) -> (r: (String, String))
    requires
        repr_args.len() > 0,
    ensures
        r.0@ == expected_repr(strings_view(repr_args@)),
        r.1@ == expected_name(strings_view(repr_args@), base_name@),
{
    let ghost all = strings_view(repr_args@);
    let n = repr_args.len();
    assert(all.take(n as int) == all);
    assert(all.take(n - 1) == all.drop_last());
    let mut name = String::from_str(base_name);
    name.append("[");
    let joined = join_first(&repr_args, n, ",");
    name.append(joined.as_str());
    name.append("]");
    let last_repr = repr_args[n - 1].clone();
    let repr = if n == 1 {
        last_repr
    } else {
        let mut repr = join_first(&repr_args, n - 1, ", ");
        repr.append(" or ");
        repr.append(last_repr.as_str());
        repr
    };
    (repr, name)
}

} // verus!
