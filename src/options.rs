use vstd::prelude::*;

use crate::generate::GenError;

verus! {

/// The name of one nested item of a field's `map(...)` attribute.
#[derive(Clone, Copy, Debug, PartialEq, Eq, Structural)]
pub enum MetaKey {
    /// `from(converter)`: converts the bridge value into the native one.
    From,
    /// `into(converter)`: converts the native value into the bridge one.
    Into,
    /// Any other item, which is an error.
    Unknown,
}

/// One nested item of a field's `map(...)` attribute: its name and the
/// source text between its parentheses.
pub struct NestedMeta {
    pub key: MetaKey,
    pub content: String,
}

/// The converter overrides of one field.
pub struct FieldOptions {
    pub map_from: Option<String>,
    pub map_into: Option<String>,
}

/// One attribute of a declaration: whether its path is `map`, and the
/// source text of its arguments.
pub struct TypeAttr {
    pub is_map: bool,
    pub args: String,
}

/// The overrides read from `metas` in order, as (from, into): each of
/// `from` and `into` may be given at most once, and no other item may
/// appear; the first item that breaks this decides the error.
pub open spec fn options_of(metas: Seq<NestedMeta>) -> Result<(Option<String>, Option<String>), GenError>
    decreases metas.len(),
{
    if metas.len() == 0 {
        Ok((None, None))
    } else {
        match options_of(metas.drop_last()) {
            Err(e) => Err(e),
            Ok((from, into)) => {
                let m = metas.last();
                match m.key {
                    MetaKey::From => if from is Some {
                        Err(GenError::RepeatedDirective)
                    } else {
                        Ok((Some(m.content), into))
                    },
                    MetaKey::Into => if into is Some {
                        Err(GenError::RepeatedDirective)
                    } else {
                        Ok((from, Some(m.content)))
                    },
                    MetaKey::Unknown => Err(GenError::UnknownDirective),
                }
            },
        }
    }
}

/// The arguments of the first `map` attribute in `attrs`, if there is one.
pub open spec fn first_map(attrs: Seq<TypeAttr>) -> Option<String>
    decreases attrs.len(),
{
    if attrs.len() == 0 {
        None
    } else if attrs[0].is_map {
        Some(attrs[0].args)
    } else {
        first_map(attrs.drop_first())
    }
}

impl FieldOptions {
    /// Reads a field's overrides from the nested items of its `map`
    /// attributes, in order. A repeated `from` or `into`, or any other item,
    /// is an error.
    pub fn new(metas: &Vec<NestedMeta>) -> (r: Result<FieldOptions, GenError>)
        ensures
            match r {
                Ok(o) => options_of(metas@) == Ok::<(Option<String>, Option<String>), GenError>(
                    (o.map_from, o.map_into),
                ),
                Err(e) => options_of(metas@) == Err::<(Option<String>, Option<String>), GenError>(e),
            },
    {
        let mut map_from: Option<String> = None;
        let mut map_into: Option<String> = None;
        let mut i: usize = 0;
        while i < metas.len()
            invariant
                i <= metas@.len(),
                options_of(metas@.subrange(0, i as int)) == Ok::<
                    (Option<String>, Option<String>),
                    GenError,
                >((map_from, map_into)),
            decreases metas@.len() - i,
        {
            proof {
                let next = metas@.subrange(0, i + 1);
                assert(next.drop_last() =~= metas@.subrange(0, i as int));
                assert(next.last() == metas@[i as int]);
            }
            let m = &metas[i];
            match m.key {
                MetaKey::From => {
                    if map_from.is_some() {
                        proof { lemma_error_persists(metas@, i as int + 1); }
                        return Err(GenError::RepeatedDirective);
                    }
                    map_from = Some(m.content.clone());
                },
                MetaKey::Into => {
                    if map_into.is_some() {
                        proof { lemma_error_persists(metas@, i as int + 1); }
                        return Err(GenError::RepeatedDirective);
                    }
                    map_into = Some(m.content.clone());
                },
                MetaKey::Unknown => {
                    proof { lemma_error_persists(metas@, i as int + 1); }
                    return Err(GenError::UnknownDirective);
                },
            }
            i = i + 1;
        }
        assert(metas@.subrange(0, metas@.len() as int) =~= metas@);
        Ok(FieldOptions { map_from, map_into })
    }
}

/// An error met reading a prefix of `metas` is the error of all of them.
proof fn lemma_error_persists(metas: Seq<NestedMeta>, k: int)
    requires
        0 <= k <= metas.len(),
        options_of(metas.subrange(0, k)) is Err,
    ensures
        options_of(metas) == options_of(metas.subrange(0, k)),
    decreases metas.len() - k,
{
    if k < metas.len() {
        let next = metas.subrange(0, k + 1);
        assert(next.drop_last() =~= metas.subrange(0, k));
        lemma_error_persists(metas, k + 1);
    } else {
        assert(metas.subrange(0, k) =~= metas);
    }
}

/// The paired type named by a declaration's attributes: the arguments of
/// its first `map` attribute.
pub fn map_type_of(attrs: &Vec<TypeAttr>) -> (r: Option<String>)
    ensures
        r == first_map(attrs@),
{
    let mut i: usize = 0;
    assert(attrs@.subrange(0, attrs@.len() as int) =~= attrs@);
    while i < attrs.len()
        invariant
            i <= attrs@.len(),
            first_map(attrs@) == first_map(attrs@.subrange(i as int, attrs@.len() as int)),
        decreases attrs@.len() - i,
    {
        proof {
            let rest = attrs@.subrange(i as int, attrs@.len() as int);
            assert(rest.drop_first() =~= attrs@.subrange(i + 1, attrs@.len() as int));
        }
        if attrs[i].is_map {
            return Some(attrs[i].args.clone());
        }
        i = i + 1;
    }
    None
}

} // verus!
