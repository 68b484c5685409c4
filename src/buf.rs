//! Fixed-capacity byte buffers shared between interrupt handlers and the
//! control loop, backed by `heapless::Vec`.

use vstd::prelude::*;

verus! {

/// Capacity of every [`ByteBuf`].
pub const BUF_CAP: usize = 64;

#[verifier::external_type_specification]
#[verifier::external_body]
#[verifier::reject_recursive_types(T)]
pub struct ExHeaplessVec<T, const N: usize>(heapless::Vec<T, N>);

/// A byte buffer of fixed capacity [`BUF_CAP`].
pub type ByteBuf = heapless::Vec<u8, 64>;

/// The bytes held by a buffer, oldest first.
pub uninterp spec fn buf_contents(b: heapless::Vec<u8, 64>) -> Seq<u8>;

/// Relies on `heapless::Vec::new`: the new vector is empty.
#[verifier::external_body]
pub(crate) fn buf_new() -> (r: ByteBuf)
    ensures
        buf_contents(r) == Seq::<u8>::empty(),
{
    heapless::Vec::new()
}

/// Relies on `heapless::Vec::push`: appends when the length is under the
/// capacity, else leaves the vector as it was and hands the item back.
#[verifier::external_body]
pub(crate) fn buf_push(b: &mut ByteBuf, x: u8) -> (ok: bool)
    ensures
        ok == (buf_contents(*old(b)).len() < BUF_CAP),
        ok ==> buf_contents(*final(b)) == buf_contents(*old(b)).push(x),
        !ok ==> buf_contents(*final(b)) == buf_contents(*old(b)),
{
    b.push(x).is_ok()
}

/// Relies on `heapless::Vec::len` (through `Deref` to a slice): the number of
/// items held, which never exceeds the capacity.
#[verifier::external_body]
pub(crate) fn buf_len(b: &ByteBuf) -> (r: usize)
    ensures
        r == buf_contents(*b).len(),
        r <= BUF_CAP,
{
    b.len()
}

/// Relies on indexing `heapless::Vec` through `Deref` to a slice.
#[verifier::external_body]
pub(crate) fn buf_get(b: &ByteBuf, i: usize) -> (r: u8)
    requires
        i < buf_contents(*b).len(),
    ensures
        r == buf_contents(*b)[i as int],
{
    b[i]
}

/// Relies on `heapless::Vec::clear`: the vector is empty afterwards.
#[verifier::external_body]
pub(crate) fn buf_clear(b: &mut ByteBuf)
    ensures
        buf_contents(*final(b)) == Seq::<u8>::empty(),
{
    b.clear()
}

/// Capacity of a [`NameList`].
pub const LIST_CAP: usize = 64;

/// A list of at most [`LIST_CAP`] names, each a [`ByteBuf`].
pub type NameList = heapless::Vec<heapless::Vec<u8, 64>, 64>;

/// The names held by a list, each as its bytes, in order.
pub uninterp spec fn list_names(l: heapless::Vec<heapless::Vec<u8, 64>, 64>) -> Seq<Seq<u8>>;

/// Relies on `heapless::Vec::new`: the new list is empty.
#[verifier::external_body]
pub(crate) fn list_new() -> (r: NameList)
    ensures
        list_names(r) == Seq::<Seq<u8>>::empty(),
{
    heapless::Vec::new()
}

/// Relies on `heapless::Vec::push`: appends when the length is under the
/// capacity, else leaves the list as it was.
#[verifier::external_body]
pub(crate) fn list_push(l: &mut NameList, name: ByteBuf) -> (ok: bool)
    ensures
        ok == (list_names(*old(l)).len() < LIST_CAP),
        ok ==> list_names(*final(l)) == list_names(*old(l)).push(buf_contents(name)),
        !ok ==> list_names(*final(l)) == list_names(*old(l)),
{
    l.push(name).is_ok()
}

/// Relies on `heapless::Vec::len` (through `Deref` to a slice): the number of
/// names held, which never exceeds the capacity.
#[verifier::external_body]
pub(crate) fn list_len(l: &NameList) -> (r: usize)
    ensures
        r == list_names(*l).len(),
        r <= LIST_CAP,
{
    l.len()
}

/// Relies on indexing `heapless::Vec` through `Deref` to a slice.
#[verifier::external_body]
pub(crate) fn list_get(l: &NameList, i: usize) -> (r: &ByteBuf)
    requires
        i < list_names(*l).len(),
    ensures
        buf_contents(*r) == list_names(*l)[i as int],
{
    &l[i]
}

/// Appends `x` to a buffer that has room for it.
pub fn buf_append(b: &mut ByteBuf, x: u8)
    requires
        buf_contents(*old(b)).len() < BUF_CAP,
    ensures
        buf_contents(*final(b)) == buf_contents(*old(b)).push(x),
{
    let _ = buf_push(b, x);
}

/// A copy of a buffer.
pub fn buf_copy(b: &ByteBuf) -> (r: ByteBuf)
    ensures
        buf_contents(r) == buf_contents(*b),
{
    let n = buf_len(b);
    let mut r = buf_new();
    let mut i: usize = 0;
    while i < n
        invariant
            n == buf_contents(*b).len(),
            n <= BUF_CAP,
            i <= n,
            buf_contents(r) == buf_contents(*b).subrange(0, i as int),
        decreases n - i,
    {
        buf_append(&mut r, buf_get(b, i));
        i = i + 1;
        assert(buf_contents(r) =~= buf_contents(*b).subrange(0, i as int));
    }
    assert(buf_contents(*b).subrange(0, n as int) =~= buf_contents(*b));
    r
}

/// Whether two buffers hold the same bytes.
pub fn buf_eq(a: &ByteBuf, b: &ByteBuf) -> (r: bool)
    ensures
        r == (buf_contents(*a) == buf_contents(*b)),
{
    let n = buf_len(a);
    if n != buf_len(b) {
        return false;
    }
    let mut i: usize = 0;
    while i < n
        invariant
            n == buf_contents(*a).len(),
            n == buf_contents(*b).len(),
            i <= n,
            forall|j: int| 0 <= j < i ==> buf_contents(*a)[j] == buf_contents(*b)[j],
        decreases n - i,
    {
        if buf_get(a, i) != buf_get(b, i) {
            return false;
        }
        i = i + 1;
    }
    assert(buf_contents(*a) =~= buf_contents(*b));
    true
}

/// Copies the bytes of a buffer into a `Vec`.
pub fn buf_to_vec(b: &ByteBuf) -> (r: Vec<u8>)
    ensures
        r@ == buf_contents(*b),
{
    let n = buf_len(b);
    let mut r: Vec<u8> = Vec::new();
    let mut i: usize = 0;
    while i < n
        invariant
            n == buf_contents(*b).len(),
            i <= n,
            r@ == buf_contents(*b).subrange(0, i as int),
        decreases n - i,
    {
        r.push(buf_get(b, i));
        i = i + 1;
    }
    assert(r@ =~= buf_contents(*b));
    r
}

/// Builds a buffer from the first bytes of `data`, as many as fit.
pub fn buf_from_slice(data: &[u8]) -> (r: ByteBuf)
    ensures
        buf_contents(r) == data@.subrange(0, vstd::math::min(data@.len() as int, BUF_CAP as int)),
{
    let mut r = buf_new();
    let mut i: usize = 0;
    while i < data.len() && i < BUF_CAP
        invariant
            i <= data@.len(),
            i <= BUF_CAP,
            buf_contents(r) == data@.subrange(0, i as int),
        decreases data@.len() - i,
    {
        let ok = buf_push(&mut r, data[i]);
        assert(ok);
        i = i + 1;
        assert(buf_contents(r) =~= data@.subrange(0, i as int));
    }
    r
}

} // verus!
