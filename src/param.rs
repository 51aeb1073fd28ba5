//! Parameter marshalling: turns a C-style `(argc, argv)` vector into borrowed
//! byte-slice items, one per argument, each ending before its NUL terminator.
use vstd::prelude::*;
use vstd::slice::slice_subrange;

verus! {

/// Index of the first zero byte of `s`, or `s.len()` when there is none.
pub open spec fn nul_index(s: Seq<u8>) -> nat
    decreases s.len(),
{
    if s.len() == 0 {
        0
    } else if s[0] == 0 {
        0
    } else {
        1 + nul_index(s.drop_first())
    }
}

/// A buffer holds a C string when it contains a terminating zero byte.
pub open spec fn has_nul(s: Seq<u8>) -> bool {
    exists|i: int| 0 <= i < s.len() && s[i] == 0
}

/// The bytes of the C string stored at the start of `s`, terminator excluded.
pub open spec fn c_span(s: Seq<u8>) -> Seq<u8> {
    s.take(nul_index(s) as int)
}

/// `nul_index` is the position of the first zero byte.
pub proof fn lemma_nul_index(s: Seq<u8>)
    ensures
        nul_index(s) <= s.len(),
        forall|j: int| 0 <= j < nul_index(s) ==> s[j] != 0,
        nul_index(s) < s.len() ==> s[nul_index(s) as int] == 0,
        has_nul(s) ==> nul_index(s) < s.len(),
    decreases s.len(),
{
    if s.len() > 0 && s[0] != 0 {
        lemma_nul_index(s.drop_first());
        assert forall|j: int| 0 <= j < nul_index(s) implies s[j] != 0 by {
            if j > 0 {
                assert(s[j] == s.drop_first()[j - 1]);
            }
        }
        if has_nul(s) {
            let i = choose|i: int| 0 <= i < s.len() && s[i] == 0;
            assert(s.drop_first()[i - 1] == 0);
        }
    }
}

/// The C string of a buffer that holds a terminator is the exact span before
/// its first zero byte: it holds no zero, and the buffer has a zero right
/// after it.
pub proof fn lemma_c_span(s: Seq<u8>)
    requires
        has_nul(s),
    ensures
        c_span(s).len() < s.len(),
        c_span(s) == s.take(c_span(s).len() as int),
        s[c_span(s).len() as int] == 0,
        forall|j: int| 0 <= j < c_span(s).len() ==> #[trigger] c_span(s)[j] != 0,
{
    lemma_nul_index(s);
}

/// One argument of a shell command: a borrowed view of its bytes.
pub struct ParamItem<'a> {
    bytes: &'a [u8],
}

impl<'a> View for ParamItem<'a> {
    type V = Seq<u8>;

    closed spec fn view(&self) -> Seq<u8> {
        self.bytes@
    }
}

impl<'a> ParamItem<'a> {
    /// Wraps a byte slice.
    pub fn new(bytes: &'a [u8]) -> (r: ParamItem<'a>)
        ensures
            r@ == bytes@,
    {
        ParamItem { bytes }
    }

    /// The argument's bytes.
    pub fn as_bytes(&self) -> (r: &'a [u8])
        ensures
            r@ == self@,
    {
        self.bytes
    }

    /// Number of bytes in the argument.
    pub fn len(&self) -> (r: usize)
        ensures
            r == self@.len(),
    {
        self.bytes.len()
    }
}

/// Length of the C string at the start of `s`: the bytes before the first zero.
pub fn c_str_len(s: &[u8]) -> (r: usize)
    requires
        has_nul(s@),
    ensures
        r == nul_index(s@),
        r < s@.len(),
        s@[r as int] == 0,
        forall|j: int| 0 <= j < r ==> s@[j] != 0,
{
    proof {
        lemma_nul_index(s@);
    }
    let mut len: usize = 0;
    while s[len] != 0
        invariant
            len <= nul_index(s@),
            nul_index(s@) < s@.len(),
            s@[nul_index(s@) as int] == 0,
            forall|j: int| 0 <= j < nul_index(s@) ==> s@[j] != 0,
        decreases nul_index(s@) - len,
    {
        len = len + 1;
    }
    len
}

/// Marshals the first `argc` entries of `argv` into argument items. Each
/// entry is the memory that an argument pointer points to; its item borrows
/// the bytes before the terminating zero and copies nothing.
pub fn marshal<'a>(argc: u32, argv: &'a [&'a [u8]]) -> (r: Vec<ParamItem<'a>>)
    requires
        argc <= argv@.len(),
        forall|i: int| 0 <= i < argc ==> has_nul(#[trigger] argv@[i]@),
    ensures
        r@.len() == argc,
        forall|i: int| 0 <= i < argc ==> (#[trigger] r@[i])@ == c_span(argv@[i]@),
        forall|i: int|
            0 <= i < argc ==> {
                let item = (#[trigger] r@[i])@;
                &&& item.len() < argv@[i]@.len()
                &&& item == argv@[i]@.take(item.len() as int)
                &&& argv@[i]@[item.len() as int] == 0
                &&& forall|j: int| 0 <= j < item.len() ==> item[j] != 0
            },
{
    let mut items: Vec<ParamItem<'a>> = Vec::new();
    let n = argc as usize;
    let mut i: usize = 0;
    while i < n
        invariant
            n == argc,
            n <= argv@.len(),
            i <= n,
            items@.len() == i,
            forall|k: int| 0 <= k < n ==> has_nul(#[trigger] argv@[k]@),
            forall|k: int| 0 <= k < i ==> (#[trigger] items@[k])@ == c_span(argv@[k]@),
        decreases n - i,
    {
        let arg: &'a [u8] = argv[i];
        let len = c_str_len(arg);
        let span = slice_subrange(arg, 0, len);
        items.push(ParamItem::new(span));
        i = i + 1;
    }
    assert forall|i: int| 0 <= i < argc implies {
        let item = (#[trigger] items@[i])@;
        &&& item.len() < argv@[i]@.len()
        &&& item == argv@[i]@.take(item.len() as int)
        &&& argv@[i]@[item.len() as int] == 0
        &&& forall|j: int| 0 <= j < item.len() ==> item[j] != 0
    } by {
        lemma_c_span(argv@[i]@);
    }
    items
}

} // verus!
