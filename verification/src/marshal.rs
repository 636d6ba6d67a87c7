//! The runtime marshaling model: plain-value stand-ins for the values that
//! cross the C-ABI boundary, an explicit native heap for the buffers the
//! pointer-carrying conversions allocate, and the borrow / consume /
//! sentinel rules each transfer mode fixes.

use vstd::pervasive::VecAdditionalExecFns;
use vstd::prelude::*;

verus! {

/// A C-side value: a plain copy for the value modes, a handle into the
/// native heap (or null) for the pointer-carrying types.
#[derive(Clone, Copy, Debug, PartialEq, Eq, Structural)]
pub enum CValue {
    Unit,
    /// A value-copied signed integer; booleans cross as their native
    /// integer form.
    Int(i64),
    /// A value-copied unsigned integer.
    Uint(u64),
    /// A live handle into the native heap.
    Ptr(usize),
    NullPtr,
}

/// An internal (managed-side) value.
#[derive(Debug, PartialEq, Eq)]
pub enum RVal {
    Unit,
    Bool(bool),
    I8(i8),
    U8(u8),
    I16(i16),
    U16(u16),
    I32(i32),
    U32(u32),
    I64(i64),
    U64(u64),
    /// A textual string's bytes.
    Text(Vec<u8>),
    /// A byte sequence.
    Blob(Vec<u8>),
    /// A sequence of strings.
    TextList(Vec<Vec<u8>>),
    /// An optional value.
    Maybe(Option<Box<RVal>>),
}

/// The model of an `RVal`.
pub enum RValView {
    Unit,
    Bool(bool),
    I8(i8),
    U8(u8),
    I16(i16),
    U16(u16),
    I32(i32),
    U32(u32),
    I64(i64),
    U64(u64),
    Text(Seq<u8>),
    Blob(Seq<u8>),
    TextList(Seq<Seq<u8>>),
    Maybe(Option<Box<RValView>>),
}

/// The models of a string list.
pub open spec fn list_view(l: Seq<Vec<u8>>) -> Seq<Seq<u8>> {
    l.map_values(|x: Vec<u8>| x@)
}

/// The model of an `RVal`.
pub open spec fn rval_view(v: RVal) -> RValView
    decreases v,
{
    match v {
        RVal::Unit => RValView::Unit,
        RVal::Bool(b) => RValView::Bool(b),
        RVal::I8(x) => RValView::I8(x),
        RVal::U8(x) => RValView::U8(x),
        RVal::I16(x) => RValView::I16(x),
        RVal::U16(x) => RValView::U16(x),
        RVal::I32(x) => RValView::I32(x),
        RVal::U32(x) => RValView::U32(x),
        RVal::I64(x) => RValView::I64(x),
        RVal::U64(x) => RValView::U64(x),
        RVal::Text(b) => RValView::Text(b@),
        RVal::Blob(b) => RValView::Blob(b@),
        RVal::TextList(l) => RValView::TextList(list_view(l@)),
        RVal::Maybe(o) => match o {
            Some(x) => RValView::Maybe(Some(Box::new(rval_view(*x)))),
            None => RValView::Maybe(None),
        },
    }
}

impl View for RVal {
    type V = RValView;

    open spec fn view(&self) -> RValView {
        rval_view(*self)
    }
}

/// The runtime type of a value crossing the boundary.
#[derive(Debug, PartialEq, Eq)]
pub enum MarshalType {
    Unit,
    Bool,
    I8,
    U8,
    I16,
    U16,
    I32,
    U32,
    I64,
    U64,
    /// A textual string: owned null-terminated buffer on the C side.
    Text,
    /// A byte sequence: refcounted byte-buffer handle on the C side.
    Blob,
    /// A sequence of strings: native list on the C side.
    TextList,
    /// An optional value, sharing its inner type's C representation; the
    /// inner sentinel signals absence.
    Opt(Box<MarshalType>),
}

/// One allocated cell of the native heap.
pub enum Payload {
    Buf(Vec<u8>),
    List(Vec<Vec<u8>>),
}

/// The model of one heap cell.
pub enum CellModel {
    Buf(Seq<u8>),
    List(Seq<Seq<u8>>),
}

/// The model of a `Payload`.
pub open spec fn payload_view(p: Payload) -> CellModel {
    match p {
        Payload::Buf(b) => CellModel::Buf(b@),
        Payload::List(l) => CellModel::List(list_view(l@)),
    }
}

/// The native heap: the buffers that pointer-carrying conversions
/// allocate. A freed cell stays as a tombstone, so a handle is never
/// reused and a double free is impossible to state accidentally.
pub struct NativeHeap {
    cells: Vec<Option<Payload>>,
}

impl View for NativeHeap {
    type V = Seq<Option<CellModel>>;

    closed spec fn view(&self) -> Seq<Option<CellModel>> {
        self.cells@.map_values(
            |c: Option<Payload>| match c {
                Some(p) => Some(payload_view(p)),
                None => None,
            },
        )
    }
}

/// How many cells of the heap are live.
pub open spec fn spec_live_count(h: Seq<Option<CellModel>>) -> nat
    decreases h.len(),
{
    if h.len() == 0 {
        0
    } else {
        spec_live_count(h.drop_last()) + (if h.last() is Some {
            1nat
        } else {
            0nat
        })
    }
}

/// A structural copy of a byte buffer.
fn copy_bytes(src: &Vec<u8>) -> (r: Vec<u8>)
    ensures
        r@ == src@,
{
    let mut r: Vec<u8> = Vec::new();
    let mut i: usize = 0;
    while i < src.len()
        invariant
            i <= src.len(),
            r@ == src@.take(i as int),
        decreases src.len() - i,
    {
        r.push(src[i]);
        proof {
            assert(src@.take((i + 1) as int).drop_last() =~= src@.take(i as int));
            assert(r@ =~= src@.take((i + 1) as int));
        }
        i = i + 1;
    }
    proof {
        assert(src@.take(src@.len() as int) =~= src@);
    }
    r
}

/// A structural copy of a string list.
fn copy_list(src: &Vec<Vec<u8>>) -> (r: Vec<Vec<u8>>)
    ensures
        list_view(r@) == list_view(src@),
        r@.len() == src@.len(),
{
    let mut r: Vec<Vec<u8>> = Vec::new();
    let mut i: usize = 0;
    while i < src.len()
        invariant
            i <= src.len(),
            r@.len() == i,
            list_view(r@) == list_view(src@.take(i as int)),
        decreases src.len() - i,
    {
        let ghost pre = r@;
        r.push(copy_bytes(&src[i]));
        proof {
            let cs = list_view(r@);
            let ss = list_view(src@.take((i + 1) as int));
            assert(src@.take((i + 1) as int).len() == i + 1);
            assert forall|j: int| 0 <= j < i + 1 implies cs[j] == ss[j] by {
                assert(src@.take((i + 1) as int)[j] == src@[j]);
                if j < i {
                    assert(r@[j] == pre[j]);
                    assert(list_view(pre)[j] == list_view(src@.take(i as int))[j]);
                    assert(src@.take(i as int)[j] == src@[j]);
                }
            }
            assert(cs =~= ss);
        }
        i = i + 1;
    }
    proof {
        assert(src@.take(src@.len() as int) =~= src@);
    }
    r
}

impl NativeHeap {
    /// An empty heap.
    pub fn new() -> (r: NativeHeap)
        ensures
            r@ == Seq::<Option<CellModel>>::empty(),
    {
        let r = NativeHeap { cells: Vec::new() };
        proof {
            assert(r@ =~= Seq::<Option<CellModel>>::empty());
        }
        r
    }

    /// How many cells exist, freed ones included.
    pub fn len(&self) -> (r: usize)
        ensures
            r == self@.len(),
    {
        self.cells.len()
    }

    /// How many cells are live.
    pub fn live_count(&self) -> (r: usize)
        ensures
            r == spec_live_count(self@),
    {
        let ghost hv = self@;
        let mut n: usize = 0;
        let mut i: usize = 0;
        while i < self.cells.len()
            invariant
                i <= self.cells.len(),
                hv == self@,
                hv.len() == self.cells@.len(),
                n == spec_live_count(hv.take(i as int)),
                n <= i,
            decreases self.cells.len() - i,
        {
            if self.cells[i].is_some() {
                n = n + 1;
            }
            proof {
                assert(hv.take((i + 1) as int).drop_last() =~= hv.take(i as int));
                assert(hv.take((i + 1) as int).last() == hv[i as int]);
                assert(hv[i as int] is Some <==> self.cells@[i as int] is Some);
            }
            i = i + 1;
        }
        proof {
            assert(hv.take(self.cells@.len() as int) =~= hv);
        }
        n
    }

    /// Allocate a fresh byte buffer; the returned handle is the new cell.
    pub fn alloc_buf(&mut self, bytes: Vec<u8>) -> (h: usize)
        ensures
            final(self)@ == old(self)@.push(Some(CellModel::Buf(bytes@))),
            h == old(self)@.len(),
    {
        let ghost pre = self.cells@;
        let h = self.cells.len();
        self.cells.push(Some(Payload::Buf(bytes)));
        proof {
            lemma_heap_view_push(pre, self.cells@);
        }
        h
    }

    /// Allocate a fresh string list; the returned handle is the new cell.
    pub fn alloc_list(&mut self, items: Vec<Vec<u8>>) -> (h: usize)
        ensures
            final(self)@ == old(self)@.push(Some(CellModel::List(list_view(items@)))),
            h == old(self)@.len(),
    {
        let ghost pre = self.cells@;
        let h = self.cells.len();
        self.cells.push(Some(Payload::List(items)));
        proof {
            lemma_heap_view_push(pre, self.cells@);
        }
        h
    }

    /// Read a live byte buffer without consuming it.
    pub fn read_buf(&self, h: usize) -> (b: Vec<u8>)
        requires
            h < self@.len(),
            self@[h as int] matches Some(CellModel::Buf(_)),
        ensures
            self@[h as int] == Some(CellModel::Buf(b@)),
    {
        proof {
            assert(self@[h as int] == (match self.cells@[h as int] {
                Some(p) => Some(payload_view(p)),
                None => None::<CellModel>,
            }));
        }
        match &self.cells[h] {
            Some(Payload::Buf(bytes)) => copy_bytes(bytes),
            _ => {
                proof {
                    assert(false);
                }
                Vec::new()
            },
        }
    }

    /// Read a live string list without consuming it.
    pub fn read_list(&self, h: usize) -> (l: Vec<Vec<u8>>)
        requires
            h < self@.len(),
            self@[h as int] matches Some(CellModel::List(_)),
        ensures
            self@[h as int] == Some(CellModel::List(list_view(l@))),
    {
        proof {
            assert(self@[h as int] == (match self.cells@[h as int] {
                Some(p) => Some(payload_view(p)),
                None => None::<CellModel>,
            }));
        }
        match &self.cells[h] {
            Some(Payload::List(items)) => copy_list(items),
            _ => {
                proof {
                    assert(false);
                }
                Vec::new()
            },
        }
    }

    /// Release a live cell: exactly one release per owned value.
    pub fn free(&mut self, h: usize)
        requires
            h < old(self)@.len(),
            old(self)@[h as int] is Some,
        ensures
            final(self)@ == old(self)@.update(h as int, None),
    {
        let ghost pre = self.cells@;
        self.cells.set(h, None);
        proof {
            let cs = self@;
            let ss = pre.map_values(
                |c: Option<Payload>| match c {
                    Some(p) => Some(payload_view(p)),
                    None => None::<CellModel>,
                },
            ).update(h as int, None);
            assert forall|j: int| 0 <= j < cs.len() implies cs[j] == ss[j] by {
                if j != h {
                    assert(self.cells@[j] == pre[j]);
                }
            }
            assert(cs =~= ss);
        }
    }
}

/// The canonical sentinel of a marshal type, per the transfer-mode table:
/// zero for the value copies (the native false for booleans, minus one
/// for signed numbers, zero for unsigned ones), the null pointer for the
/// pointer-carrying types. An empty success payload relays failure as the
/// value-copy zero. An `Option` shares its inner type's sentinel.
pub open spec fn spec_sentinel(t: MarshalType) -> CValue
    decreases t,
{
    match t {
        MarshalType::Unit => CValue::Int(0),
        MarshalType::Bool => CValue::Int(0),
        MarshalType::I8 => CValue::Int(-1i64),
        MarshalType::I16 => CValue::Int(-1i64),
        MarshalType::I32 => CValue::Int(-1i64),
        MarshalType::I64 => CValue::Int(-1i64),
        MarshalType::U8 => CValue::Uint(0),
        MarshalType::U16 => CValue::Uint(0),
        MarshalType::U32 => CValue::Uint(0),
        MarshalType::U64 => CValue::Uint(0),
        MarshalType::Text => CValue::NullPtr,
        MarshalType::Blob => CValue::NullPtr,
        MarshalType::TextList => CValue::NullPtr,
        MarshalType::Opt(inner) => spec_sentinel(*inner),
    }
}

/// Whether an internal value inhabits a marshal type.
pub open spec fn spec_valid(t: MarshalType, v: RValView) -> bool
    decreases t,
{
    match t {
        MarshalType::Unit => v is Unit,
        MarshalType::Bool => v is Bool,
        MarshalType::I8 => v is I8,
        MarshalType::U8 => v is U8,
        MarshalType::I16 => v is I16,
        MarshalType::U16 => v is U16,
        MarshalType::I32 => v is I32,
        MarshalType::U32 => v is U32,
        MarshalType::I64 => v is I64,
        MarshalType::U64 => v is U64,
        MarshalType::Text => v is Text,
        MarshalType::Blob => v is Blob,
        MarshalType::TextList => v is TextList,
        MarshalType::Opt(inner) => match v {
            RValView::Maybe(o) => match o {
                Some(x) => spec_valid(*inner, *x),
                None => true,
            },
            _ => false,
        },
    }
}

/// Whether a C value is a well-formed representation of a marshal type
/// against a heap: integers in range, handles live and of the right
/// payload kind; for an `Option`, the inner sentinel or a well-formed
/// inner value.
pub open spec fn spec_c_valid(h: Seq<Option<CellModel>>, t: MarshalType, c: CValue) -> bool
    decreases t,
{
    match t {
        MarshalType::Unit => c is Unit,
        MarshalType::Bool => c is Int,
        MarshalType::I8 => c matches CValue::Int(x) && -128 <= x <= 127,
        MarshalType::I16 => c matches CValue::Int(x) && -32768 <= x <= 32767,
        MarshalType::I32 => c matches CValue::Int(x) && -0x8000_0000 <= x <= 0x7fff_ffff,
        MarshalType::I64 => c is Int,
        MarshalType::U8 => c matches CValue::Uint(x) && x <= 255,
        MarshalType::U16 => c matches CValue::Uint(x) && x <= 65535,
        MarshalType::U32 => c matches CValue::Uint(x) && x <= 0xffff_ffff,
        MarshalType::U64 => c is Uint,
        MarshalType::Text => c matches CValue::Ptr(p) && p < h.len() && h[p as int] matches Some(
            CellModel::Buf(_),
        ),
        MarshalType::Blob => c matches CValue::Ptr(p) && p < h.len() && h[p as int] matches Some(
            CellModel::Buf(_),
        ),
        MarshalType::TextList => c matches CValue::Ptr(p) && p < h.len() && h[
            p as int
        ] matches Some(CellModel::List(_)),
        MarshalType::Opt(inner) => c == spec_sentinel(*inner) || spec_c_valid(h, *inner, c),
    }
}

/// The C value an internal value converts to; `fresh` is the handle a
/// pointer-carrying conversion allocates.
pub open spec fn spec_encode(t: MarshalType, v: RValView, fresh: usize) -> CValue
    decreases t,
{
    match t {
        MarshalType::Unit => CValue::Unit,
        MarshalType::Bool => match v {
            RValView::Bool(b) => CValue::Int(
                if b {
                    1
                } else {
                    0
                },
            ),
            _ => CValue::Unit,
        },
        MarshalType::I8 => match v {
            RValView::I8(x) => CValue::Int(x as i64),
            _ => CValue::Unit,
        },
        MarshalType::U8 => match v {
            RValView::U8(x) => CValue::Uint(x as u64),
            _ => CValue::Unit,
        },
        MarshalType::I16 => match v {
            RValView::I16(x) => CValue::Int(x as i64),
            _ => CValue::Unit,
        },
        MarshalType::U16 => match v {
            RValView::U16(x) => CValue::Uint(x as u64),
            _ => CValue::Unit,
        },
        MarshalType::I32 => match v {
            RValView::I32(x) => CValue::Int(x as i64),
            _ => CValue::Unit,
        },
        MarshalType::U32 => match v {
            RValView::U32(x) => CValue::Uint(x as u64),
            _ => CValue::Unit,
        },
        MarshalType::I64 => match v {
            RValView::I64(x) => CValue::Int(x),
            _ => CValue::Unit,
        },
        MarshalType::U64 => match v {
            RValView::U64(x) => CValue::Uint(x),
            _ => CValue::Unit,
        },
        MarshalType::Text => CValue::Ptr(fresh),
        MarshalType::Blob => CValue::Ptr(fresh),
        MarshalType::TextList => CValue::Ptr(fresh),
        MarshalType::Opt(inner) => match v {
            RValView::Maybe(o) => match o {
                Some(x) => spec_encode(*inner, *x, fresh),
                None => spec_sentinel(*inner),
            },
            _ => CValue::Unit,
        },
    }
}

/// The heap after converting an internal value to C: one fresh cell for a
/// pointer-carrying conversion, the heap unchanged otherwise.
pub open spec fn spec_encode_heap(
    h: Seq<Option<CellModel>>,
    t: MarshalType,
    v: RValView,
) -> Seq<Option<CellModel>>
    decreases t,
{
    match t {
        MarshalType::Text => match v {
            RValView::Text(b) => h.push(Some(CellModel::Buf(b))),
            _ => h,
        },
        MarshalType::Blob => match v {
            RValView::Blob(b) => h.push(Some(CellModel::Buf(b))),
            _ => h,
        },
        MarshalType::TextList => match v {
            RValView::TextList(l) => h.push(Some(CellModel::List(l))),
            _ => h,
        },
        MarshalType::Opt(inner) => match v {
            RValView::Maybe(o) => match o {
                Some(x) => spec_encode_heap(h, *inner, *x),
                None => h,
            },
            _ => h,
        },
        _ => h,
    }
}

/// Whether a conversion of this value allocates a heap cell.
pub open spec fn spec_allocates(t: MarshalType, v: RValView) -> bool
    decreases t,
{
    match t {
        MarshalType::Text => true,
        MarshalType::Blob => true,
        MarshalType::TextList => true,
        MarshalType::Opt(inner) => match v {
            RValView::Maybe(o) => match o {
                Some(x) => spec_allocates(*inner, *x),
                None => false,
            },
            _ => false,
        },
        _ => false,
    }
}

/// The internal value a C value converts back to.
pub open spec fn spec_decode(h: Seq<Option<CellModel>>, t: MarshalType, c: CValue) -> RValView
    decreases t,
{
    match t {
        MarshalType::Unit => RValView::Unit,
        MarshalType::Bool => match c {
            CValue::Int(x) => RValView::Bool(x != 0),
            _ => RValView::Unit,
        },
        MarshalType::I8 => match c {
            CValue::Int(x) => RValView::I8(x as i8),
            _ => RValView::Unit,
        },
        MarshalType::U8 => match c {
            CValue::Uint(x) => RValView::U8(x as u8),
            _ => RValView::Unit,
        },
        MarshalType::I16 => match c {
            CValue::Int(x) => RValView::I16(x as i16),
            _ => RValView::Unit,
        },
        MarshalType::U16 => match c {
            CValue::Uint(x) => RValView::U16(x as u16),
            _ => RValView::Unit,
        },
        MarshalType::I32 => match c {
            CValue::Int(x) => RValView::I32(x as i32),
            _ => RValView::Unit,
        },
        MarshalType::U32 => match c {
            CValue::Uint(x) => RValView::U32(x as u32),
            _ => RValView::Unit,
        },
        MarshalType::I64 => match c {
            CValue::Int(x) => RValView::I64(x),
            _ => RValView::Unit,
        },
        MarshalType::U64 => match c {
            CValue::Uint(x) => RValView::U64(x),
            _ => RValView::Unit,
        },
        MarshalType::Text => match c {
            CValue::Ptr(p) => match h[p as int] {
                Some(CellModel::Buf(b)) => RValView::Text(b),
                _ => RValView::Unit,
            },
            _ => RValView::Unit,
        },
        MarshalType::Blob => match c {
            CValue::Ptr(p) => match h[p as int] {
                Some(CellModel::Buf(b)) => RValView::Blob(b),
                _ => RValView::Unit,
            },
            _ => RValView::Unit,
        },
        MarshalType::TextList => match c {
            CValue::Ptr(p) => match h[p as int] {
                Some(CellModel::List(l)) => RValView::TextList(l),
                _ => RValView::Unit,
            },
            _ => RValView::Unit,
        },
        MarshalType::Opt(inner) => if c == spec_sentinel(*inner) {
            RValView::Maybe(None)
        } else {
            RValView::Maybe(Some(Box::new(spec_decode(h, *inner, c))))
        },
    }
}

/// The heap after a consuming conversion: the cell a pointer-carrying
/// value occupied is released; a value copy, or an absent `Option`,
/// touches nothing.
pub open spec fn spec_release(
    h: Seq<Option<CellModel>>,
    t: MarshalType,
    c: CValue,
) -> Seq<Option<CellModel>>
    decreases t,
{
    match t {
        MarshalType::Text | MarshalType::Blob | MarshalType::TextList => match c {
            CValue::Ptr(p) => h.update(p as int, None),
            _ => h,
        },
        MarshalType::Opt(inner) => if c == spec_sentinel(*inner) {
            h
        } else {
            spec_release(h, *inner, c)
        },
        _ => h,
    }
}

/// The sentinel error value of a marshal type.
pub fn c_error_value(t: &MarshalType) -> (c: CValue)
    ensures
        c == spec_sentinel(*t),
    decreases *t,
{
    match t {
        MarshalType::Unit => CValue::Int(0),
        MarshalType::Bool => CValue::Int(0),
        MarshalType::I8 | MarshalType::I16 | MarshalType::I32 | MarshalType::I64 => CValue::Int(-1i64),
        MarshalType::U8 | MarshalType::U16 | MarshalType::U32 | MarshalType::U64 => CValue::Uint(0),
        MarshalType::Text | MarshalType::Blob | MarshalType::TextList => CValue::NullPtr,
        MarshalType::Opt(inner) => c_error_value(inner),
    }
}

/// Convert an internal value into its C representation, transferring
/// ownership: a pointer-carrying value moves into a fresh heap cell that
/// the consumer must release.
pub fn to_c_owned(heap: &mut NativeHeap, t: &MarshalType, v: RVal) -> (c: CValue)
    requires
        spec_valid(*t, v@),
    ensures
        c == spec_encode(*t, v@, old(heap)@.len() as usize),
        final(heap)@ == spec_encode_heap(old(heap)@, *t, v@),
    decreases *t,
{
    match t {
        MarshalType::Unit => CValue::Unit,
        MarshalType::Bool => match v {
            RVal::Bool(b) => CValue::Int(
                if b {
                    1
                } else {
                    0
                },
            ),
            _ => {
                proof {
                    assert(false);
                }
                CValue::Unit
            },
        },
        MarshalType::I8 => match v {
            RVal::I8(x) => CValue::Int(x as i64),
            _ => {
                proof {
                    assert(false);
                }
                CValue::Unit
            },
        },
        MarshalType::U8 => match v {
            RVal::U8(x) => CValue::Uint(x as u64),
            _ => {
                proof {
                    assert(false);
                }
                CValue::Unit
            },
        },
        MarshalType::I16 => match v {
            RVal::I16(x) => CValue::Int(x as i64),
            _ => {
                proof {
                    assert(false);
                }
                CValue::Unit
            },
        },
        MarshalType::U16 => match v {
            RVal::U16(x) => CValue::Uint(x as u64),
            _ => {
                proof {
                    assert(false);
                }
                CValue::Unit
            },
        },
        MarshalType::I32 => match v {
            RVal::I32(x) => CValue::Int(x as i64),
            _ => {
                proof {
                    assert(false);
                }
                CValue::Unit
            },
        },
        MarshalType::U32 => match v {
            RVal::U32(x) => CValue::Uint(x as u64),
            _ => {
                proof {
                    assert(false);
                }
                CValue::Unit
            },
        },
        MarshalType::I64 => match v {
            RVal::I64(x) => CValue::Int(x),
            _ => {
                proof {
                    assert(false);
                }
                CValue::Unit
            },
        },
        MarshalType::U64 => match v {
            RVal::U64(x) => CValue::Uint(x),
            _ => {
                proof {
                    assert(false);
                }
                CValue::Unit
            },
        },
        MarshalType::Text => match v {
            RVal::Text(bytes) => {
                let h = heap.alloc_buf(bytes);
                CValue::Ptr(h)
            },
            _ => {
                proof {
                    assert(false);
                }
                CValue::Unit
            },
        },
        MarshalType::Blob => match v {
            RVal::Blob(bytes) => {
                let h = heap.alloc_buf(bytes);
                CValue::Ptr(h)
            },
            _ => {
                proof {
                    assert(false);
                }
                CValue::Unit
            },
        },
        MarshalType::TextList => match v {
            RVal::TextList(items) => {
                let h = heap.alloc_list(items);
                CValue::Ptr(h)
            },
            _ => {
                proof {
                    assert(false);
                }
                CValue::Unit
            },
        },
        MarshalType::Opt(inner) => match v {
            RVal::Maybe(o) => match o {
                Some(x) => to_c_owned(heap, inner, *x),
                None => c_error_value(inner),
            },
            _ => {
                proof {
                    assert(false);
                }
                CValue::Unit
            },
        },
    }
}

/// Convert a raw C value into an internal value, borrowing: the source
/// stays live and is not consumed.
pub fn from_c_borrowed(heap: &NativeHeap, t: &MarshalType, c: CValue) -> (r: RVal)
    requires
        spec_c_valid(heap@, *t, c),
    ensures
        r@ == spec_decode(heap@, *t, c),
    decreases *t,
{
    match t {
        MarshalType::Unit => RVal::Unit,
        MarshalType::Bool => match c {
            CValue::Int(x) => RVal::Bool(x != 0),
            _ => {
                proof {
                    assert(false);
                }
                RVal::Unit
            },
        },
        MarshalType::I8 => match c {
            CValue::Int(x) => RVal::I8(x as i8),
            _ => {
                proof {
                    assert(false);
                }
                RVal::Unit
            },
        },
        MarshalType::U8 => match c {
            CValue::Uint(x) => RVal::U8(x as u8),
            _ => {
                proof {
                    assert(false);
                }
                RVal::Unit
            },
        },
        MarshalType::I16 => match c {
            CValue::Int(x) => RVal::I16(x as i16),
            _ => {
                proof {
                    assert(false);
                }
                RVal::Unit
            },
        },
        MarshalType::U16 => match c {
            CValue::Uint(x) => RVal::U16(x as u16),
            _ => {
                proof {
                    assert(false);
                }
                RVal::Unit
            },
        },
        MarshalType::I32 => match c {
            CValue::Int(x) => RVal::I32(x as i32),
            _ => {
                proof {
                    assert(false);
                }
                RVal::Unit
            },
        },
        MarshalType::U32 => match c {
            CValue::Uint(x) => RVal::U32(x as u32),
            _ => {
                proof {
                    assert(false);
                }
                RVal::Unit
            },
        },
        MarshalType::I64 => match c {
            CValue::Int(x) => RVal::I64(x),
            _ => {
                proof {
                    assert(false);
                }
                RVal::Unit
            },
        },
        MarshalType::U64 => match c {
            CValue::Uint(x) => RVal::U64(x),
            _ => {
                proof {
                    assert(false);
                }
                RVal::Unit
            },
        },
        MarshalType::Text => match c {
            CValue::Ptr(p) => RVal::Text(heap.read_buf(p)),
            _ => {
                proof {
                    assert(false);
                }
                RVal::Unit
            },
        },
        MarshalType::Blob => match c {
            CValue::Ptr(p) => RVal::Blob(heap.read_buf(p)),
            _ => {
                proof {
                    assert(false);
                }
                RVal::Unit
            },
        },
        MarshalType::TextList => match c {
            CValue::Ptr(p) => RVal::TextList(heap.read_list(p)),
            _ => {
                proof {
                    assert(false);
                }
                RVal::Unit
            },
        },
        MarshalType::Opt(inner) => {
            let s = c_error_value(inner);
            if c == s {
                RVal::Maybe(None)
            } else {
                RVal::Maybe(Some(Box::new(from_c_borrowed(heap, inner, c))))
            }
        },
    }
}

/// Convert a raw C value into an internal value, consuming it: the cell
/// a pointer-carrying value occupied is released, exactly once.
pub fn from_c_full(heap: &mut NativeHeap, t: &MarshalType, c: CValue) -> (r: RVal)
    requires
        spec_c_valid(old(heap)@, *t, c),
    ensures
        r@ == spec_decode(old(heap)@, *t, c),
        final(heap)@ == spec_release(old(heap)@, *t, c),
    decreases *t,
{
    match t {
        MarshalType::Text | MarshalType::Blob | MarshalType::TextList => match c {
            CValue::Ptr(p) => {
                let r = match t {
                    MarshalType::Text => RVal::Text(heap.read_buf(p)),
                    MarshalType::Blob => RVal::Blob(heap.read_buf(p)),
                    _ => RVal::TextList(heap.read_list(p)),
                };
                heap.free(p);
                r
            },
            _ => {
                proof {
                    assert(false);
                }
                RVal::Unit
            },
        },
        MarshalType::Opt(inner) => {
            let s = c_error_value(inner);
            if c == s {
                RVal::Maybe(None)
            } else {
                RVal::Maybe(Some(Box::new(from_c_full(heap, inner, c))))
            }
        },
        _ => from_c_borrowed(heap, t, c),
    }
}


/// The runtime type a semantic type marshals as: textual strings and
/// paths as owned buffers, byte sequences and the native structured
/// value as opaque refcounted buffers, string sequences as native
/// lists. A location (mutable reference), a fallible result wrapper, or
/// an externally-defined type carries no runtime value of its own here.
pub open spec fn spec_marshal_type_of(t: crate::semtype::SemTypeView) -> Option<MarshalType>
    decreases t,
{
    match t {
        crate::semtype::SemTypeView::Unit => Some(MarshalType::Unit),
        crate::semtype::SemTypeView::Bool => Some(MarshalType::Bool),
        crate::semtype::SemTypeView::I8 => Some(MarshalType::I8),
        crate::semtype::SemTypeView::U8 => Some(MarshalType::U8),
        crate::semtype::SemTypeView::I16 => Some(MarshalType::I16),
        crate::semtype::SemTypeView::U16 => Some(MarshalType::U16),
        crate::semtype::SemTypeView::I32 => Some(MarshalType::I32),
        crate::semtype::SemTypeView::U32 => Some(MarshalType::U32),
        crate::semtype::SemTypeView::I64 => Some(MarshalType::I64),
        crate::semtype::SemTypeView::U64 => Some(MarshalType::U64),
        crate::semtype::SemTypeView::Str => Some(MarshalType::Text),
        crate::semtype::SemTypeView::Path => Some(MarshalType::Text),
        crate::semtype::SemTypeView::GStr => Some(MarshalType::Text),
        crate::semtype::SemTypeView::ByteVec => Some(MarshalType::Blob),
        crate::semtype::SemTypeView::Bytes => Some(MarshalType::Blob),
        crate::semtype::SemTypeView::Variant => Some(MarshalType::Blob),
        crate::semtype::SemTypeView::StrList => Some(MarshalType::TextList),
        crate::semtype::SemTypeView::Opt(inner) => match spec_marshal_type_of(*inner) {
            Some(m) => Some(MarshalType::Opt(Box::new(m))),
            None => None,
        },
        crate::semtype::SemTypeView::MutRef(_) => None,
        crate::semtype::SemTypeView::ResultOf(_) => None,
        crate::semtype::SemTypeView::Named(_) => None,
    }
}

/// The runtime type a semantic type marshals as, if it carries a value.
pub fn marshal_type_of(t: &crate::semtype::SemType) -> (r: Option<MarshalType>)
    ensures
        match (r, spec_marshal_type_of(t@)) {
            (Some(m), Some(s)) => m == s,
            (None, None) => true,
            _ => false,
        },
    decreases *t,
{
    match t {
        crate::semtype::SemType::Unit => Some(MarshalType::Unit),
        crate::semtype::SemType::Bool => Some(MarshalType::Bool),
        crate::semtype::SemType::I8 => Some(MarshalType::I8),
        crate::semtype::SemType::U8 => Some(MarshalType::U8),
        crate::semtype::SemType::I16 => Some(MarshalType::I16),
        crate::semtype::SemType::U16 => Some(MarshalType::U16),
        crate::semtype::SemType::I32 => Some(MarshalType::I32),
        crate::semtype::SemType::U32 => Some(MarshalType::U32),
        crate::semtype::SemType::I64 => Some(MarshalType::I64),
        crate::semtype::SemType::U64 => Some(MarshalType::U64),
        crate::semtype::SemType::Str => Some(MarshalType::Text),
        crate::semtype::SemType::Path => Some(MarshalType::Text),
        crate::semtype::SemType::GStr => Some(MarshalType::Text),
        crate::semtype::SemType::ByteVec => Some(MarshalType::Blob),
        crate::semtype::SemType::Bytes => Some(MarshalType::Blob),
        crate::semtype::SemType::Variant => Some(MarshalType::Blob),
        crate::semtype::SemType::StrList => Some(MarshalType::TextList),
        crate::semtype::SemType::Opt(inner) => match marshal_type_of(inner) {
            Some(m) => Some(MarshalType::Opt(Box::new(m))),
            None => None,
        },
        crate::semtype::SemType::MutRef(_) => None,
        crate::semtype::SemType::ResultOf(_) => None,
        crate::semtype::SemType::Named(_) => None,
    }
}

/// The heap view after a push of one cell.
proof fn lemma_heap_view_push(pre: Seq<Option<Payload>>, post: Seq<Option<Payload>>)
    requires
        post.len() == pre.len() + 1,
        forall|j: int| 0 <= j < pre.len() ==> post[j] == pre[j],
    ensures
        post.map_values(
            |c: Option<Payload>| match c {
                Some(p) => Some(payload_view(p)),
                None => None::<CellModel>,
            },
        ) == pre.map_values(
            |c: Option<Payload>| match c {
                Some(p) => Some(payload_view(p)),
                None => None::<CellModel>,
            },
        ).push(
            match post.last() {
                Some(p) => Some(payload_view(p)),
                None => None::<CellModel>,
            },
        ),
{
    let f = |c: Option<Payload>| match c {
        Some(p) => Some(payload_view(p)),
        None => None::<CellModel>,
    };
    let cs = post.map_values(f);
    let ss = pre.map_values(f).push(f(post.last()));
    assert forall|j: int| 0 <= j < cs.len() implies cs[j] == ss[j] by {
        if j < pre.len() {
            assert(post[j] == pre[j]);
        } else {
            assert(post[j] == post.last());
        }
    }
    assert(cs =~= ss);
}


/// Live cells after a push: one more for a live cell, unchanged for a
/// tombstone.
pub proof fn lemma_live_count_push(h: Seq<Option<CellModel>>, c: Option<CellModel>)
    ensures
        spec_live_count(h.push(c)) == spec_live_count(h) + (if c is Some {
            1int
        } else {
            0int
        }),
{
    assert(h.push(c).drop_last() =~= h);
    assert(h.push(c).last() == c);
}

/// Live cells after releasing a live cell: exactly one fewer.
pub proof fn lemma_live_count_update_none(h: Seq<Option<CellModel>>, i: int)
    requires
        0 <= i < h.len(),
        h[i] is Some,
    ensures
        spec_live_count(h.update(i, None)) == spec_live_count(h) - 1,
    decreases h.len(),
{
    let u = h.update(i, None);
    if i == h.len() - 1 {
        assert(u.drop_last() =~= h.drop_last());
        assert(u.last() is None);
        assert(h.last() is Some);
    } else {
        assert(u.drop_last() =~= h.drop_last().update(i, None));
        assert(u.last() == h.last());
        assert(h.drop_last()[i] == h[i]);
        lemma_live_count_update_none(h.drop_last(), i);
    }
}

/// Whether a value's C encoding can be confused with its type's
/// sentinel once wrapped in an `Option`. A pointer-carrying value never
/// can (a fresh handle is not null); a value copy can, exactly when it
/// encodes to the sentinel.
pub open spec fn spec_unambiguous(t: MarshalType, v: RValView) -> bool
    decreases t,
{
    match t {
        MarshalType::Opt(inner) => match v {
            RValView::Maybe(o) => match o {
                Some(x) => spec_unambiguous(*inner, *x) && (forall|f: usize|
                    spec_encode(*inner, *x, f) != spec_sentinel(*inner)),
                None => true,
            },
            _ => true,
        },
        _ => true,
    }
}

/// Ownership round trip: a value converted to its C representation and
/// back yields a value equal to the original, for every transfer shape.
/// A conversion of a pointer-carrying value allocates exactly one cell,
/// and the consuming conversion back releases exactly that cell: the
/// number of live cells returns to what it was — no leak, no double
/// free. The one excluded family of inputs is an `Option` wrapping a
/// value equal to its own sentinel, whose aliasing is stated by
/// `lemma_option_sentinel_aliasing`.
pub proof fn lemma_round_trip(h: Seq<Option<CellModel>>, t: MarshalType, v: RValView)
    requires
        spec_valid(t, v),
        spec_unambiguous(t, v),
        h.len() < usize::MAX as nat,
    ensures
        spec_c_valid(spec_encode_heap(h, t, v), t, spec_encode(t, v, h.len() as usize)),
        spec_decode(spec_encode_heap(h, t, v), t, spec_encode(t, v, h.len() as usize)) == v,
        spec_encode_heap(h, t, v).len() == h.len() + (if spec_allocates(t, v) {
            1int
        } else {
            0int
        }),
        spec_live_count(spec_encode_heap(h, t, v)) == spec_live_count(h) + (if spec_allocates(
            t,
            v,
        ) {
            1int
        } else {
            0int
        }),
        spec_release(spec_encode_heap(h, t, v), t, spec_encode(t, v, h.len() as usize)).len()
            == spec_encode_heap(h, t, v).len(),
        spec_live_count(
            spec_release(spec_encode_heap(h, t, v), t, spec_encode(t, v, h.len() as usize)),
        ) == spec_live_count(h),
    decreases t,
{
    let c = spec_encode(t, v, h.len() as usize);
    let h1 = spec_encode_heap(h, t, v);
    match t {
        MarshalType::Text => {
            if let RValView::Text(b) = v {
                assert(h1 == h.push(Some(CellModel::Buf(b))));
                assert(h1[h.len() as int] == Some(CellModel::Buf(b)));
                lemma_live_count_push(h, Some(CellModel::Buf(b)));
                assert(spec_release(h1, t, c) == h1.update(h.len() as int, None));
                lemma_live_count_update_none(h1, h.len() as int);
            }
        },
        MarshalType::Blob => {
            if let RValView::Blob(b) = v {
                assert(h1 == h.push(Some(CellModel::Buf(b))));
                assert(h1[h.len() as int] == Some(CellModel::Buf(b)));
                lemma_live_count_push(h, Some(CellModel::Buf(b)));
                lemma_live_count_update_none(h1, h.len() as int);
            }
        },
        MarshalType::TextList => {
            if let RValView::TextList(l) = v {
                assert(h1 == h.push(Some(CellModel::List(l))));
                assert(h1[h.len() as int] == Some(CellModel::List(l)));
                lemma_live_count_push(h, Some(CellModel::List(l)));
                lemma_live_count_update_none(h1, h.len() as int);
            }
        },
        MarshalType::Opt(inner) => {
            if let RValView::Maybe(o) = v {
                match o {
                    Some(x) => {
                        lemma_round_trip(h, *inner, *x);
                        assert(spec_encode(*inner, *x, h.len() as usize) != spec_sentinel(*inner));
                    },
                    None => {},
                }
            }
        },
        _ => {},
    }
}

/// Sentinel aliasing: an `Option` wrapping a present value that encodes
/// to the inner type's own sentinel decodes as absence, not as the
/// original value. The aliasing of "absent" with "present but equal to
/// the sentinel" is the documented behavior.
pub proof fn lemma_option_sentinel_aliasing(
    h: Seq<Option<CellModel>>,
    inner: MarshalType,
    x: RValView,
)
    requires
        spec_valid(inner, x),
        spec_encode(inner, x, h.len() as usize) == spec_sentinel(inner),
    ensures
        ({
            let t = MarshalType::Opt(Box::new(inner));
            let v = RValView::Maybe(Some(Box::new(x)));
            spec_decode(spec_encode_heap(h, t, v), t, spec_encode(t, v, h.len() as usize))
                == RValView::Maybe(None::<Box<RValView>>)
        }),
{
}

} // verus!
