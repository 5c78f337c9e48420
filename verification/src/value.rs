use vstd::prelude::*;

verus! {

/// An untyped configuration value: the tree that parsing a configuration
/// text yields. Only the shapes the mapping rules actually read are kept as
/// plain data; scalars no rule ever reads beyond "not a string" (floats and
/// datetimes) are collapsed into `OtherScalar`.
///
/// A `Table` holds its entries as an ordered sequence of pairs, in source
/// declaration order: declaration order is meaningful to consumers and must
/// survive every stage of decoding.
#[derive(Debug, PartialEq, Eq)]
pub enum RawValue {
    Str(String),
    Int(i64),
    Bool(bool),
    OtherScalar,
    List(Vec<RawValue>),
    Table(Vec<(String, RawValue)>),
}

/// The first value bound to `key`, scanning the entries in declaration order.
pub open spec fn lookup_spec(es: Seq<(String, RawValue)>, key: Seq<char>) -> Option<RawValue>
    decreases es.len(),
{
    if es.len() == 0 {
        None
    } else if es[0].0@ == key {
        Some(es[0].1)
    } else {
        lookup_spec(es.drop_first(), key)
    }
}

/// Finds the first entry named `key`, front to back.
pub fn lookup<'a>(es: &'a Vec<(String, RawValue)>, key: &String) -> (r: Option<&'a RawValue>)
    ensures
        match r {
            Some(v) => lookup_spec(es@, key@) == Some(*v),
            None => lookup_spec(es@, key@) is None,
        },
{
    let mut i: usize = 0;
    proof {
        assert(es@.skip(0) =~= es@);
    }
    while i < es.len()
        invariant
            i <= es.len(),
            lookup_spec(es@, key@) == lookup_spec(es@.skip(i as int), key@),
        decreases es.len() - i,
    {
        let e = &es[i];
        if e.0 == *key {
            proof {
                assert(es@.skip(i as int)[0] == es@[i as int]);
            }
            return Some(&e.1);
        }
        proof {
            assert(es@.skip(i as int)[0] == es@[i as int]);
            assert(es@.skip(i as int).drop_first() =~= es@.skip(i + 1));
        }
        i += 1;
    }
    proof {
        assert(es@.skip(i as int) =~= Seq::<(String, RawValue)>::empty());
    }
    None
}

} // verus!
