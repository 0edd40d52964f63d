use vstd::prelude::*;
use vstd::bytes::{spec_u64_from_le_bytes, spec_u64_to_le_bytes, u64_from_le_bytes, u64_to_le_bytes};
use vstd::slice::slice_subrange;
use std::marker::PhantomData;
use crate::staking::error::ErrorCode;

verus! {

/// A value that a `LazyVector` stores in a fixed-size slot of its byte buffer,
/// in the Borsh encoding.
pub trait Element: Sized {
    /// The bytes that encode the value.
    spec fn spec_encode(self) -> Seq<u8>;

    /// The value read from the start of `bytes`, or `None` where they encode none.
    spec fn spec_decode(bytes: Seq<u8>) -> Option<Self>;

    fn encode(&self) -> (r: Vec<u8>)
        ensures
            r@ == self.spec_encode(),
    ;

    fn decode(bytes: &[u8]) -> (r: Option<Self>)
        ensures
            r == Self::spec_decode(bytes@),
    ;

    /// Reading back an encoded value gives the value, whatever follows it.
    proof fn lemma_decode_encode(v: Self, rest: Seq<u8>)
        ensures
            Self::spec_decode(v.spec_encode() + rest) == Some(v),
    ;
}

impl Element for u64 {
    open spec fn spec_encode(self) -> Seq<u8> {
        spec_u64_to_le_bytes(self)
    }

    open spec fn spec_decode(bytes: Seq<u8>) -> Option<u64> {
        if bytes.len() >= 8 {
            Some(spec_u64_from_le_bytes(bytes.subrange(0, 8)))
        } else {
            None
        }
    }

    fn encode(&self) -> (r: Vec<u8>) {
        u64_to_le_bytes(*self)
    }

    fn decode(bytes: &[u8]) -> (r: Option<u64>) {
        if bytes.len() >= 8 {
            Some(u64_from_le_bytes(slice_subrange(bytes, 0, 8)))
        } else {
            None
        }
    }

    proof fn lemma_decode_encode(v: u64, rest: Seq<u8>) {
        vstd::bytes::lemma_auto_spec_u64_to_from_le_bytes();
        let e = spec_u64_to_le_bytes(v);
        assert((e + rest).subrange(0, 8) =~= e);
    }
}

impl Element for bool {
    open spec fn spec_encode(self) -> Seq<u8> {
        seq![if self { 1u8 } else { 0u8 }]
    }

    open spec fn spec_decode(bytes: Seq<u8>) -> Option<bool> {
        if bytes.len() >= 1 && bytes[0] == 0 {
            Some(false)
        } else if bytes.len() >= 1 && bytes[0] == 1 {
            Some(true)
        } else {
            None
        }
    }

    fn encode(&self) -> (r: Vec<u8>) {
        let mut r: Vec<u8> = Vec::new();
        if *self {
            r.push(1u8);
        } else {
            r.push(0u8);
        }
        assert(r@ =~= self.spec_encode());
        r
    }

    fn decode(bytes: &[u8]) -> (r: Option<bool>) {
        if bytes.len() >= 1 && bytes[0] == 0 {
            Some(false)
        } else if bytes.len() >= 1 && bytes[0] == 1 {
            Some(true)
        } else {
            None
        }
    }

    proof fn lemma_decode_encode(v: bool, rest: Seq<u8>) {
    }
}

impl Element for u8 {
    open spec fn spec_encode(self) -> Seq<u8> {
        seq![self]
    }

    open spec fn spec_decode(bytes: Seq<u8>) -> Option<u8> {
        if bytes.len() >= 1 {
            Some(bytes[0])
        } else {
            None
        }
    }

    fn encode(&self) -> (r: Vec<u8>) {
        let mut r: Vec<u8> = Vec::new();
        r.push(*self);
        assert(r@ =~= self.spec_encode());
        r
    }

    fn decode(bytes: &[u8]) -> (r: Option<u8>) {
        if bytes.len() >= 1 {
            Some(bytes[0])
        } else {
            None
        }
    }

    proof fn lemma_decode_encode(v: u8, rest: Seq<u8>) {
    }
}

/// The state of a `LazyVector`: slot `i` is the `elem_size` bytes of `data`
/// that start at `offset + i * elem_size`, for `i < size`.
pub struct LazyVectorView {
    pub offset: nat,
    pub size: nat,
    pub elem_size: nat,
    pub data: Seq<u8>,
}

impl LazyVectorView {
    /// Every slot lies inside the buffer.
    pub open spec fn wf(self) -> bool {
        &&& self.elem_size > 0
        &&& self.offset + self.size * self.elem_size <= self.data.len()
    }

    pub open spec fn slot_start(self, index: int) -> int {
        self.offset + index * self.elem_size
    }

    /// The bytes of slot `index`.
    pub open spec fn slot(self, index: int) -> Seq<u8> {
        self.data.subrange(self.slot_start(index), self.slot_start(index) + self.elem_size)
    }

    /// What `get` returns for `index`.
    pub open spec fn get<T: Element>(self, index: int) -> Result<T, ErrorCode> {
        if 0 <= index < self.size {
            match T::spec_decode(self.slot(index)) {
                Some(v) => Ok(v),
                None => Err(ErrorCode::ElementDidNotDeserialize),
            }
        } else {
            Err(ErrorCode::OutOfBounds)
        }
    }

    /// The buffer with slot `index` holding `bytes`, the rest unchanged.
    pub open spec fn with_slot(self, index: int, bytes: Seq<u8>) -> LazyVectorView {
        LazyVectorView {
            data: self.data.subrange(0, self.slot_start(index)) + bytes + self.data.subrange(
                self.slot_start(index) + self.elem_size,
                self.data.len() as int,
            ),
            ..self
        }
    }

    /// The buffer with every slot set to zero bytes, the rest unchanged.
    pub open spec fn cleared(self) -> LazyVectorView {
        LazyVectorView {
            data: Seq::new(
                self.data.len(),
                |k: int|
                    if self.offset <= k < self.offset + self.size * self.elem_size {
                        0u8
                    } else {
                        self.data[k]
                    },
            ),
            ..self
        }
    }
}

/// Bound facts on slot positions.
pub proof fn lemma_slot_in_bounds(v: LazyVectorView, index: int)
    requires
        v.wf(),
        0 <= index < v.size,
    ensures
        v.offset <= v.slot_start(index),
        v.slot_start(index) + v.elem_size <= v.offset + v.size * v.elem_size,
        v.offset + v.size * v.elem_size <= v.data.len(),
{
    assert((index + 1) * v.elem_size <= v.size * v.elem_size) by (nonlinear_arith)
        requires
            index + 1 <= v.size,
            v.elem_size > 0,
    ;
    assert(index * v.elem_size >= 0) by (nonlinear_arith)
        requires
            index >= 0,
            v.elem_size > 0,
    ;
    assert((index + 1) * v.elem_size == index * v.elem_size + v.elem_size) by (nonlinear_arith);
}

/// A typed vector of fixed-size elements laid out in a byte buffer, read and
/// written one slot at a time.
pub struct LazyVector<T> {
    offset: usize,
    size: usize,
    elem_size: usize,
    data: Vec<u8>,
    marker: PhantomData<T>,
}

impl<T> View for LazyVector<T> {
    type V = LazyVectorView;

    closed spec fn view(&self) -> LazyVectorView {
        LazyVectorView {
            offset: self.offset as nat,
            size: self.size as nat,
            elem_size: self.elem_size as nat,
            data: self.data@,
        }
    }
}

impl<T: Element> LazyVector<T> {
    /// A vector of `size` slots of `elem_size` bytes each, starting at `offset`
    /// in `data`. Refused with `WrongVectorSize` where the slots do not fit in
    /// what follows `offset`.
    pub fn new(offset: usize, size: usize, elem_size: usize, data: Vec<u8>) -> (r: Result<
        Self,
        ErrorCode,
    >)
        requires
            offset <= data@.len(),
            elem_size > 0,
        ensures
            r is Ok <==> size <= (data@.len() - offset) / (elem_size as int),
            r matches Ok(v) ==> v@ == (LazyVectorView {
                offset: offset as nat,
                size: size as nat,
                elem_size: elem_size as nat,
                data: data@,
            }),
            r matches Ok(v) ==> v@.wf(),
            r matches Err(e) ==> e == ErrorCode::WrongVectorSize,
    {
        let free_space = (data.len() - offset) / elem_size;
        if free_space < size {
            return Err(ErrorCode::WrongVectorSize);
        }
        proof {
            let len = data@.len() - offset;
            assert(size * elem_size <= len) by (nonlinear_arith)
                requires
                    size <= len / (elem_size as int),
                    elem_size > 0,
                    len >= 0,
            {
                assert((len / (elem_size as int)) * elem_size <= len);
                assert(size * elem_size <= (len / (elem_size as int)) * elem_size);
            }
        }
        Ok(LazyVector { offset, size, elem_size, data, marker: PhantomData })
    }

    pub fn len(&self) -> (r: usize)
        ensures
            r == self@.size,
    {
        self.size
    }

    pub fn elem_size(&self) -> (r: usize)
        ensures
            r == self@.elem_size,
    {
        self.elem_size
    }

    /// The whole buffer.
    pub fn data(&self) -> (r: &Vec<u8>)
        ensures
            r@ == self@.data,
    {
        &self.data
    }

    /// Gives the buffer back.
    pub fn into_data(self) -> (r: Vec<u8>)
        ensures
            r@ == self@.data,
    {
        self.data
    }

    /// The element in slot `index`: `OutOfBounds` past the end, and
    /// `ElementDidNotDeserialize` where the slot's bytes encode no element.
    pub fn get(&self, index: usize) -> (r: Result<T, ErrorCode>)
        requires
            self@.wf(),
        ensures
            r == self@.get::<T>(index as int),
    {
        if index >= self.size {
            return Err(ErrorCode::OutOfBounds);
        }
        let n = self.data.len();
        proof {
            lemma_slot_in_bounds(self@, index as int);
        }
        let from = index * self.elem_size + self.offset;
        let to = from + self.elem_size;
        let slice = slice_subrange(self.data.as_slice(), from, to);
        match T::decode(slice) {
            Some(v) => Ok(v),
            None => Err(ErrorCode::ElementDidNotDeserialize),
        }
    }

    /// `get` for an index given as a `u64`.
    pub fn get_at(&self, index: u64) -> (r: Result<T, ErrorCode>)
        requires
            self@.wf(),
        ensures
            r == self@.get::<T>(index as int),
    {
        if index >= self.size as u64 {
            return Err(ErrorCode::OutOfBounds);
        }
        self.get(index as usize)
    }

    /// Writes `value` into slot `index`: `OutOfBounds` past the end, and
    /// `RequireEqViolated` where its encoding does not fill the slot
    /// exactly; nothing changes on an error.
    pub fn set(&mut self, index: usize, value: &T) -> (r: Result<(), ErrorCode>)
        requires
            old(self)@.wf(),
        ensures
            final(self)@.wf(),
            r is Ok <==> (index < old(self)@.size && value.spec_encode().len()
                == old(self)@.elem_size),
            index >= old(self)@.size ==> r == Err::<(), ErrorCode>(ErrorCode::OutOfBounds),
            index < old(self)@.size && value.spec_encode().len() != old(self)@.elem_size ==> r
                == Err::<(), ErrorCode>(ErrorCode::RequireEqViolated),
            r is Ok ==> final(self)@ == old(self)@.with_slot(index as int, value.spec_encode()),
            r is Err ==> final(self)@ == old(self)@,
    {
        if index >= self.size {
            return Err(ErrorCode::OutOfBounds);
        }
        let raw = value.encode();
        if raw.len() != self.elem_size {
            return Err(ErrorCode::RequireEqViolated);
        }
        let n = self.data.len();
        proof {
            lemma_slot_in_bounds(self@, index as int);
        }
        let from = index * self.elem_size + self.offset;
        let ghost start = self@.slot_start(index as int);
        let ghost before = self@;
        assert(from == start);
        let mut k: usize = 0;
        while k < self.elem_size
            invariant
                0 <= k <= self.elem_size,
                self.elem_size == raw@.len(),
                from == start,
                self.offset == before.offset,
                self.size == before.size,
                self.elem_size == before.elem_size,
                start + before.elem_size <= before.data.len(),
                before.data.len() <= usize::MAX,
                0 <= start,
                self.data@.len() == before.data.len(),
                forall|j: int|
                    0 <= j < self.data@.len() ==> #[trigger] self.data@[j] == if start <= j < start
                        + k {
                        raw@[j - start]
                    } else {
                        before.data[j]
                    },
            decreases self.elem_size - k,
        {
            self.data.set(from + k, raw[k]);
            k = k + 1;
        }
        assert(self@.data =~= before.with_slot(index as int, raw@).data);
        Ok(())
    }

    /// Sets every slot to zero bytes.
    pub fn clear(&mut self)
        requires
            old(self)@.wf(),
        ensures
            final(self)@ == old(self)@.cleared(),
            final(self)@.wf(),
    {
        let ghost before = self@;
        let from = self.offset;
        let n = self.data.len();
        proof {
            assert(self.size * self.elem_size >= 0) by (nonlinear_arith)
                requires
                    self.size >= 0,
                    self.elem_size >= 0,
            ;
        }
        let to = self.size * self.elem_size + from;
        let mut k: usize = from;
        while k < to
            invariant
                from <= k <= to,
                from == before.offset,
                to == before.offset + before.size * before.elem_size,
                to <= before.data.len(),
                self.offset == before.offset,
                self.size == before.size,
                self.elem_size == before.elem_size,
                self.data@.len() == before.data.len(),
                forall|j: int|
                    0 <= j < self.data@.len() ==> #[trigger] self.data@[j] == if from <= j < k {
                        0u8
                    } else {
                        before.data[j]
                    },
            decreases to - k,
        {
            self.data.set(k, 0u8);
            k = k + 1;
        }
        assert(self@.data =~= before.cleared().data);
    }
}

/// What `set` writes is what `get` then reads.
pub proof fn lemma_get_after_set<T: Element>(v: LazyVectorView, index: int, value: T)
    requires
        v.wf(),
        0 <= index < v.size,
        value.spec_encode().len() == v.elem_size,
    ensures
        v.with_slot(index, value.spec_encode()).wf(),
        v.with_slot(index, value.spec_encode()).get::<T>(index) == Ok::<T, ErrorCode>(value),
{
    lemma_slot_in_bounds(v, index);
    let w = v.with_slot(index, value.spec_encode());
    assert(w.slot(index) =~= value.spec_encode() + Seq::<u8>::empty());
    T::lemma_decode_encode(value, Seq::<u8>::empty());
}

/// Writing one slot leaves every other slot as it was.
pub proof fn lemma_set_keeps_other_slots<T: Element>(
    v: LazyVectorView,
    index: int,
    value: T,
    other: int,
)
    requires
        v.wf(),
        0 <= index < v.size,
        value.spec_encode().len() == v.elem_size,
        other != index,
    ensures
        v.with_slot(index, value.spec_encode()).get::<T>(other) == v.get::<T>(other),
{
    let w = v.with_slot(index, value.spec_encode());
    lemma_slot_in_bounds(v, index);
    if 0 <= other < v.size {
        lemma_slot_in_bounds(v, other);
        if other < index {
            assert(v.slot_start(other) + v.elem_size <= v.slot_start(index)) by (nonlinear_arith)
                requires
                    other + 1 <= index,
                    v.elem_size > 0,
            ;
        } else {
            assert(v.slot_start(index) + v.elem_size <= v.slot_start(other)) by (nonlinear_arith)
                requires
                    index + 1 <= other,
                    v.elem_size > 0,
            ;
        }
        assert(w.slot(other) =~= v.slot(other));
    }
}

/// After `clear`, every slot holds zero bytes and the bytes around the slots
/// are unchanged.
pub proof fn lemma_cleared_slots(v: LazyVectorView, index: int)
    requires
        v.wf(),
        0 <= index < v.size,
    ensures
        v.cleared().wf(),
        v.cleared().slot(index) == Seq::new(v.elem_size, |k: int| 0u8),
        forall|k: int|
            0 <= k < v.offset || v.offset + v.size * v.elem_size <= k < v.data.len() ==> v.cleared().data[k]
                == v.data[k],
{
    lemma_slot_in_bounds(v, index);
    assert(v.cleared().slot(index) =~= Seq::new(v.elem_size, |k: int| 0u8));
}

} // verus!
