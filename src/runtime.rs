use vstd::prelude::*;
use vstd::std_specs::convert::{IntoSpec, TryIntoSpec};

verus! {

/// Declares `pyo3::Python`, the token that proves the interpreter lock is
/// held; conversions only pass it along.
#[verifier::external_type_specification]
#[verifier::external_body]
pub struct ExPython<'py>(pyo3::Python<'py>);

/// Declares `pyo3::PyErr`, the Python exception a failed conversion
/// returns; it is carried through unopened.
#[verifier::external_type_specification]
#[verifier::external_body]
pub struct ExPyErr(pyo3::PyErr);

/// A value that converts into `T`, given the interpreter token. Each
/// annotated declaration and its paired type implement it both ways;
/// optionals and collections convert through their elements.
pub trait MapPy<T>: Sized {
    fn map_py(self, py: pyo3::Python) -> Result<T, pyo3::PyErr>;
}

/// Relies on `pyo3::PyErr::new::<PyTypeError, _>`: a `TypeError` whose
/// message is the `Debug` text of the rejected value and of the
/// conversion's error.
#[verifier::external_body]
fn type_error<V: core::fmt::Debug, E: core::fmt::Debug>(value: &V, e: E) -> pyo3::PyErr {
    pyo3::PyErr::new::<pyo3::exceptions::PyTypeError, _>(format!("cannot convert {value:?}: {e:?}"))
}

/// Converts with `Into`, which cannot fail.
pub fn into<T, U>(value: T, _py: pyo3::Python) -> (r: Result<U, pyo3::PyErr>) where T: Into<U>
    ensures
        r is Ok,
        T::obeys_into_spec() ==> r->Ok_0 == value.into_spec(),
{
    Ok(value.into())
}

/// Converts with `TryInto`; a rejected value becomes a Python `TypeError`
/// that names it.
pub fn try_into<T, U>(value: T, _py: pyo3::Python) -> (r: Result<U, pyo3::PyErr>)
    where T: TryInto<U> + Clone + core::fmt::Debug, <T as TryInto<U>>::Error: core::fmt::Debug,
    ensures
        T::obeys_try_into_spec() ==> (r is Ok <==> value.try_into_spec() is Ok),
        T::obeys_try_into_spec() && r is Ok ==> r->Ok_0 == value.try_into_spec()->Ok_0,
{
    let rejected = value.clone();
    match value.try_into() {
        Ok(u) => Ok(u),
        Err(e) => Err(type_error(&rejected, e)),
    }
}

/// What converting an optional value through `f` gives: absence for
/// absence, with no call of `f`; for a present value, `f`'s success wrapped
/// as present, or `f`'s failure.
pub open spec fn option_mapped<T, U, F: Fn(T) -> Result<U, pyo3::PyErr>>(
    value: Option<T>,
    f: F,
    r: Result<Option<U>, pyo3::PyErr>,
) -> bool {
    match value {
        None => r == Ok::<Option<U>, pyo3::PyErr>(None),
        Some(x) => match r {
            Ok(o) => o is Some && f.ensures((x,), Ok::<U, pyo3::PyErr>(o->Some_0)),
            Err(e) => f.ensures((x,), Err::<U, pyo3::PyErr>(e)),
        },
    }
}

/// `f` can succeed on `x`.
pub open spec fn converts<T, U, F: Fn(T) -> Result<U, pyo3::PyErr>>(f: F, x: T) -> bool {
    exists|y: U| f.ensures((x,), Ok::<U, pyo3::PyErr>(y))
}

/// What converting a collection element by element through `f` gives:
/// either every element converted, in order, or a failure that `f` gave on
/// one of them after succeeding on each element before it.
pub open spec fn vec_mapped<T, U, F: Fn(T) -> Result<U, pyo3::PyErr>>(
    items: Seq<T>,
    f: F,
    r: Result<Vec<U>, pyo3::PyErr>,
) -> bool {
    match r {
        Ok(out) => out@.len() == items.len() && forall|i: int|
            0 <= i < items.len() ==> f.ensures((#[trigger] items[i],), Ok::<U, pyo3::PyErr>(out@[i])),
        Err(e) => exists|i: int|
            0 <= i < items.len() && f.ensures((#[trigger] items[i],), Err::<U, pyo3::PyErr>(e))
                && forall|j: int| 0 <= j < i ==> converts(f, #[trigger] items[j]),
    }
}

/// An element whose conversion can only fail makes the whole collection's
/// conversion fail: no converted collection is returned.
pub proof fn lemma_element_failure_fails_all<T, U, F: Fn(T) -> Result<U, pyo3::PyErr>>(
    items: Seq<T>,
    f: F,
    r: Result<Vec<U>, pyo3::PyErr>,
    i: int,
)
    requires
        vec_mapped(items, f, r),
        0 <= i < items.len(),
        forall|res: Result<U, pyo3::PyErr>| f.ensures((items[i],), res) ==> res is Err,
    ensures
        r is Err,
{
    if r is Ok {
        assert(f.ensures((items[i],), Ok::<U, pyo3::PyErr>(r->Ok_0@[i])));
    }
}

/// A present value whose conversion can only fail makes the optional's
/// conversion fail.
pub proof fn lemma_present_failure_fails<T, U, F: Fn(T) -> Result<U, pyo3::PyErr>>(
    x: T,
    f: F,
    r: Result<Option<U>, pyo3::PyErr>,
)
    requires
        option_mapped(Some(x), f, r),
        forall|res: Result<U, pyo3::PyErr>| f.ensures((x,), res) ==> res is Err,
    ensures
        r is Err,
{
    if r is Ok {
        assert(f.ensures((x,), Ok::<U, pyo3::PyErr>(r->Ok_0->Some_0)));
    }
}

/// The fallible conversion from `i64` to `u32` never wraps or truncates: a
/// value outside the range of `u32` (a negative width, say) is rejected,
/// and one inside it is kept as the same number.
pub proof fn lemma_narrowing_rejects(v: i64)
    ensures
        <i64 as TryIntoSpec<u32>>::obeys_try_into_spec(),
        v < 0 || v > u32::MAX ==> <i64 as TryIntoSpec<u32>>::try_into_spec(v) is Err,
        0 <= v <= u32::MAX ==> <i64 as TryIntoSpec<u32>>::try_into_spec(v) is Ok
            && <i64 as TryIntoSpec<u32>>::try_into_spec(v)->Ok_0 as int == v as int,
{
}

/// Converts an optional value: absence maps to absence without calling `f`,
/// presence maps through `f`, whose failure is the result's.
pub fn map_option<T, U, F>(value: Option<T>, f: F) -> (r: Result<Option<U>, pyo3::PyErr>)
    where F: Fn(T) -> Result<U, pyo3::PyErr>,
    requires
        value is Some ==> f.requires((value->Some_0,)),
    ensures
        option_mapped(value, f, r),
{
    match value {
        None => Ok(None),
        Some(x) => match f(x) {
            Ok(y) => Ok(Some(y)),
            Err(e) => Err(e),
        },
    }
}

/// Converts each element of a collection through `f`, front to back. The
/// first failure aborts the whole conversion and is the result; nothing
/// converted before it is returned.
pub fn map_vec<T, U, F>(value: Vec<T>, f: F) -> (r: Result<Vec<U>, pyo3::PyErr>)
    where F: Fn(T) -> Result<U, pyo3::PyErr>,
    requires
        forall|i: int| 0 <= i < value@.len() ==> f.requires((#[trigger] value@[i],)),
    ensures
        vec_mapped(value@, f, r),
{
    let ghost items = value@;
    let n: usize = value.len();
    let mut rest = value;
    let mut reversed: Vec<T> = Vec::new();
    while rest.len() > 0
        invariant
            rest@ == items.subrange(0, rest@.len() as int),
            reversed@.len() == n - rest@.len(),
            n == items.len(),
            items == value@,
            forall|k: int| 0 <= k < reversed@.len() ==> #[trigger] reversed@[k] == items[n - 1 - k],
        decreases rest@.len(),
    {
        let x = rest.pop().unwrap();
        reversed.push(x);
    }
    let mut out: Vec<U> = Vec::new();
    while reversed.len() > 0
        invariant
            n == items.len(),
            items == value@,
            reversed@.len() + out@.len() == n,
            forall|k: int| 0 <= k < reversed@.len() ==> #[trigger] reversed@[k] == items[n - 1 - k],
            forall|i: int| 0 <= i < items.len() ==> f.requires((#[trigger] items[i],)),
            forall|i: int| 0 <= i < out@.len() ==> f.ensures(
                (#[trigger] items[i],),
                Ok::<U, pyo3::PyErr>(out@[i]),
            ),
        decreases reversed@.len(),
    {
        let ghost i = out@.len() as int;
        let x = reversed.pop().unwrap();
        let res = f(x);
        match res {
            Ok(y) => {
                out.push(y);
            },
            Err(e) => {
                assert(f.ensures((items[i],), Err::<U, pyo3::PyErr>(e)));
                return Err(e);
            },
        }
    }
    Ok(out)
}

impl<T: MapPy<U>, U> MapPy<Option<U>> for Option<T> {
    /// Absence stays absence; a present value converts through its own
    /// conversion, whose failure is the result's.
    fn map_py(self, py: pyo3::Python) -> (r: Result<Option<U>, pyo3::PyErr>)
        ensures
            self is None ==> r == Ok::<Option<U>, pyo3::PyErr>(None),
            r is Ok ==> (r->Ok_0 is Some <==> self is Some),
            self is Some && r is Ok ==> call_ensures(
                <T as MapPy<U>>::map_py,
                (self->Some_0, py),
                Ok::<U, pyo3::PyErr>(r->Ok_0->Some_0),
            ),
            self is Some && r is Err ==> call_ensures(
                <T as MapPy<U>>::map_py,
                (self->Some_0, py),
                Err::<U, pyo3::PyErr>(r->Err_0),
            ),
    {
        let convert = |v: T| -> (res: Result<U, pyo3::PyErr>)
            ensures
                call_ensures(<T as MapPy<U>>::map_py, (v, py), res),
            {
                v.map_py(py)
            };
        map_option(self, convert)
    }
}

impl<T: MapPy<U>, U> MapPy<Vec<U>> for Vec<T> {
    /// Converts each element through its own conversion, front to back;
    /// the first failure is the result, and nothing converted is returned.
    fn map_py(self, py: pyo3::Python) -> (r: Result<Vec<U>, pyo3::PyErr>)
        ensures
            self@.len() == 0 ==> r is Ok,
            r is Ok ==> r->Ok_0@.len() == self@.len(),
            r is Ok ==> forall|i: int|
                0 <= i < self@.len() ==> call_ensures(
                    <T as MapPy<U>>::map_py,
                    (#[trigger] self@[i], py),
                    Ok::<U, pyo3::PyErr>(r->Ok_0@[i]),
                ),
            r is Err ==> exists|i: int|
                0 <= i < self@.len() && call_ensures(
                    <T as MapPy<U>>::map_py,
                    (#[trigger] self@[i], py),
                    Err::<U, pyo3::PyErr>(r->Err_0),
                ) && forall|j: int|
                    0 <= j < i ==> exists|y: U| call_ensures(
                        <T as MapPy<U>>::map_py,
                        (#[trigger] self@[j], py),
                        Ok::<U, pyo3::PyErr>(y),
                    ),
    {
        let convert = |v: T| -> (res: Result<U, pyo3::PyErr>)
            ensures
                call_ensures(<T as MapPy<U>>::map_py, (v, py), res),
            {
                v.map_py(py)
            };
        map_vec(self, convert)
    }
}

impl MapPy<bool> for bool {
    fn map_py(self, _py: pyo3::Python) -> (r: Result<bool, pyo3::PyErr>)
        ensures
            r == Ok::<bool, pyo3::PyErr>(self),
    {
        Ok(self)
    }
}

impl MapPy<u8> for u8 {
    fn map_py(self, _py: pyo3::Python) -> (r: Result<u8, pyo3::PyErr>)
        ensures
            r == Ok::<u8, pyo3::PyErr>(self),
    {
        Ok(self)
    }
}

impl MapPy<u16> for u16 {
    fn map_py(self, _py: pyo3::Python) -> (r: Result<u16, pyo3::PyErr>)
        ensures
            r == Ok::<u16, pyo3::PyErr>(self),
    {
        Ok(self)
    }
}

impl MapPy<u32> for u32 {
    fn map_py(self, _py: pyo3::Python) -> (r: Result<u32, pyo3::PyErr>)
        ensures
            r == Ok::<u32, pyo3::PyErr>(self),
    {
        Ok(self)
    }
}

impl MapPy<u64> for u64 {
    fn map_py(self, _py: pyo3::Python) -> (r: Result<u64, pyo3::PyErr>)
        ensures
            r == Ok::<u64, pyo3::PyErr>(self),
    {
        Ok(self)
    }
}

impl MapPy<usize> for usize {
    fn map_py(self, _py: pyo3::Python) -> (r: Result<usize, pyo3::PyErr>)
        ensures
            r == Ok::<usize, pyo3::PyErr>(self),
    {
        Ok(self)
    }
}

impl MapPy<i8> for i8 {
    fn map_py(self, _py: pyo3::Python) -> (r: Result<i8, pyo3::PyErr>)
        ensures
            r == Ok::<i8, pyo3::PyErr>(self),
    {
        Ok(self)
    }
}

impl MapPy<i16> for i16 {
    fn map_py(self, _py: pyo3::Python) -> (r: Result<i16, pyo3::PyErr>)
        ensures
            r == Ok::<i16, pyo3::PyErr>(self),
    {
        Ok(self)
    }
}

impl MapPy<i32> for i32 {
    fn map_py(self, _py: pyo3::Python) -> (r: Result<i32, pyo3::PyErr>)
        ensures
            r == Ok::<i32, pyo3::PyErr>(self),
    {
        Ok(self)
    }
}

impl MapPy<i64> for i64 {
    fn map_py(self, _py: pyo3::Python) -> (r: Result<i64, pyo3::PyErr>)
        ensures
            r == Ok::<i64, pyo3::PyErr>(self),
    {
        Ok(self)
    }
}

impl MapPy<isize> for isize {
    fn map_py(self, _py: pyo3::Python) -> (r: Result<isize, pyo3::PyErr>)
        ensures
            r == Ok::<isize, pyo3::PyErr>(self),
    {
        Ok(self)
    }
}

impl MapPy<String> for String {
    fn map_py(self, _py: pyo3::Python) -> (r: Result<String, pyo3::PyErr>)
        ensures
            r == Ok::<String, pyo3::PyErr>(self),
    {
        Ok(self)
    }
}

} // verus!
