//! The virtual evaluation stack and the translation of the stack instructions.
//!
//! A slot is addressed by its position alone: the storage cell bound to a
//! position never moves, and a swap exchanges the values held by two cells
//! and the origin labels of their slots.

use vstd::prelude::*;

use crate::word::{digits_value, is_word_numeral, parse_word, Word};

verus! {

/// The fatal conditions of stack translation.
#[derive(Clone, Copy, Debug, PartialEq, Eq, Structural)]
pub enum StackError {
    /// A push operand is not a numeral that fits in a machine word.
    MalformedImmediate,
    /// The requested depth is not below the current height.
    StackUnderflow,
    /// The height that the assembler computed differs from the stack model's.
    HeightMismatch,
    /// No storage cell is left for a new slot.
    StackOverflow,
}

/// One slot of the virtual evaluation stack.
#[derive(Debug)]
pub struct StackSlot {
    /// The handle of the storage cell that holds the slot's value.
    pub storage: usize,
    /// The symbolic origin of the value, if known.
    pub original: Option<String>,
}

/// The abstract state of a translation context: the slots, bottom first, and
/// the contents of the storage cells.
pub struct StackState {
    pub slots: Seq<StackSlot>,
    pub cells: Seq<Word>,
}

impl StackState {
    /// Every slot is bound to an existing storage cell, and every cell has a
    /// handle.
    pub open spec fn wf(self) -> bool {
        &&& self.cells.len() <= usize::MAX
        &&& forall|i: int| 0 <= i < self.slots.len() ==> #[trigger] self.slots[i].storage < self.cells.len()
    }

    /// The position of the slot at depth `offset` from the top.
    pub open spec fn index_at_depth(self, offset: nat) -> int {
        self.slots.len() - offset - 1
    }

    /// The outcome of addressing depth `offset` when the assembler says the
    /// stack is `height` high.
    pub open spec fn depth_check(self, offset: nat, height: nat) -> Result<(), StackError> {
        if offset >= height {
            Err(StackError::StackUnderflow)
        } else if height != self.slots.len() {
            Err(StackError::HeightMismatch)
        } else {
            Ok(())
        }
    }

    /// The value stored for the slot at depth `offset`.
    pub open spec fn value_at_depth(self, offset: nat) -> Word {
        self.cells[self.slots[self.index_at_depth(offset)].storage as int]
    }

    /// The origin label of the slot at depth `offset`.
    pub open spec fn original_at_depth(self, offset: nat) -> Option<String> {
        self.slots[self.index_at_depth(offset)].original
    }

    /// The state after exchanging the top with the slot at depth `offset`: the
    /// two cells trade values and the two slots trade origin labels.
    pub open spec fn swapped(self, offset: nat) -> StackState {
        let t = self.index_at_depth(0);
        let s = self.index_at_depth(offset);
        let ts = self.slots[t].storage;
        let ss = self.slots[s].storage;
        StackState {
            slots: self.slots.update(
                t,
                StackSlot { storage: ts, original: self.slots[s].original },
            ).update(s, StackSlot { storage: ss, original: self.slots[t].original }),
            cells: self.cells.update(ts as int, self.cells[ss as int]).update(
                ss as int,
                self.cells[ts as int],
            ),
        }
    }

    /// The state after a new slot is bound to the cell of its own position,
    /// which receives `value`.
    pub open spec fn pushed(self, value: Word, original: Option<String>) -> StackState {
        let p = self.slots.len();
        StackState {
            slots: self.slots.push(StackSlot { storage: p as usize, original }),
            cells: self.cells.update(p as int, value),
        }
    }
}

/// The translation context of one function: its stack model and the storage
/// cells that were allocated for it.
pub struct Context {
    /// The stack model, bottom first.
    pub stack: Vec<StackSlot>,
    /// The storage cells, addressed by handle.
    pub cells: Vec<Word>,
}

impl View for Context {
    type V = StackState;

    open spec fn view(&self) -> StackState {
        StackState { slots: self.stack@, cells: self.cells@ }
    }
}

fn copy_original(o: &Option<String>) -> (r: Option<String>)
    ensures
        r == *o,
{
    match o {
        Some(s) => Some(s.clone()),
        None => None,
    }
}

impl Context {
    /// A context with an empty stack and `cell_count` storage cells, all zero.
    pub fn new(cell_count: usize) -> (r: Context)
        ensures
            r@.wf(),
            r@.slots.len() == 0,
            r@.cells.len() == cell_count,
            forall|i: int| 0 <= i < cell_count ==> #[trigger] r@.cells[i].value() == 0,
    {
        let mut cells: Vec<Word> = Vec::new();
        let mut i: usize = 0;
        while i < cell_count
            invariant
                i <= cell_count,
                cells@.len() == i,
                forall|j: int| 0 <= j < i ==> #[trigger] cells@[j].value() == 0,
            decreases cell_count - i,
        {
            cells.push(Word::from_u64(0));
            i = i + 1;
        }
        Context { stack: Vec::new(), cells }
    }

    /// The current height of the stack model.
    pub fn height(&self) -> (r: usize)
        ensures
            r == self@.slots.len(),
    {
        self.stack.len()
    }

    /// Reads the storage cell `handle`.
    pub fn load(&self, handle: usize) -> (r: Word)
        requires
            handle < self@.cells.len(),
        ensures
            r == self@.cells[handle as int],
    {
        self.cells[handle]
    }

    /// Writes `value` into the storage cell `handle`.
    pub fn store(&mut self, handle: usize, value: Word)
        requires
            handle < old(self)@.cells.len(),
        ensures
            final(self)@.slots == old(self)@.slots,
            final(self)@.cells == old(self)@.cells.update(handle as int, value),
    {
        self.cells.set(handle, value);
    }

    /// Appends a slot bound to the cell of its own position, storing `value`
    /// there; fails when no cell is left for that position.
    pub fn push_slot(&mut self, value: Word, original: Option<String>) -> (r: Result<(), StackError>)
        requires
            old(self)@.wf(),
        ensures
            final(self)@.wf(),
            r is Ok <==> old(self)@.slots.len() < old(self)@.cells.len(),
            r is Ok ==> final(self)@ == old(self)@.pushed(value, original),
            r is Err ==> r == Err::<(), StackError>(StackError::StackOverflow) && final(self)@
                == old(self)@,
    {
        let p = self.stack.len();
        if p >= self.cells.len() {
            return Err(StackError::StackOverflow);
        }
        self.cells.set(p, value);
        self.stack.push(StackSlot { storage: p, original });
        proof {
            assert(self@.slots =~= old(self)@.pushed(value, original).slots);
        }
        Ok(())
    }

    /// Removes the top slot; its cell keeps its value. Fails on an empty stack.
    pub fn pop_slot(&mut self) -> (r: Result<(), StackError>)
        requires
            old(self)@.wf(),
        ensures
            final(self)@.wf(),
            final(self)@.cells == old(self)@.cells,
            r is Ok <==> old(self)@.slots.len() > 0,
            r is Ok ==> final(self)@.slots == old(self)@.slots.drop_last(),
            r is Err ==> r == Err::<(), StackError>(StackError::StackUnderflow) && final(self)@
                == old(self)@,
    {
        if self.stack.len() == 0 {
            return Err(StackError::StackUnderflow);
        }
        self.stack.pop();
        proof {
            assert(self@.slots =~= old(self)@.slots.drop_last());
        }
        Ok(())
    }
}

/// Translates the push of a hexadecimal literal into a word constant. The
/// caller appends the slot that holds it.
pub fn push(context: &mut Context, value: String) -> (r: Result<Word, StackError>)
    ensures
        final(context)@ == old(context)@,
        r is Ok <==> is_word_numeral(value@, 16),
        r is Ok ==> r->Ok_0.value() == digits_value(value@, 16),
        r is Err ==> r == Err::<Word, StackError>(StackError::MalformedImmediate),
{
    match parse_word(value.as_str(), 16) {
        Some(w) => Ok(w),
        None => Err(StackError::MalformedImmediate),
    }
}

/// Translates the push of a block tag, written in decimal, into a word
/// constant. The caller appends the slot that holds it.
pub fn push_tag(context: &mut Context, value: String) -> (r: Result<Word, StackError>)
    ensures
        final(context)@ == old(context)@,
        r is Ok <==> is_word_numeral(value@, 10),
        r is Ok ==> r->Ok_0.value() == digits_value(value@, 10),
        r is Err ==> r == Err::<Word, StackError>(StackError::MalformedImmediate),
{
    match parse_word(value.as_str(), 10) {
        Some(w) => Ok(w),
        None => Err(StackError::MalformedImmediate),
    }
}

/// Translates a duplicate of the slot at depth `offset`: returns the value
/// stored for it and hands its origin label out through `original`. The
/// caller appends the slot for the copy.
pub fn dup(context: &mut Context, offset: usize, height: usize, original: &mut Option<String>) -> (r:
    Result<Word, StackError>)
    requires
        old(context)@.wf(),
    ensures
        final(context)@ == old(context)@,
        r is Ok <==> old(context)@.depth_check(offset as nat, height as nat) is Ok,
        r is Ok ==> r->Ok_0 == old(context)@.value_at_depth(offset as nat) && *final(original)
            == old(context)@.original_at_depth(offset as nat),
        r is Err ==> r->Err_0 == old(context)@.depth_check(offset as nat, height as nat)->Err_0
            && *final(original) == *old(original),
{
    if offset >= height {
        return Err(StackError::StackUnderflow);
    }
    if height != context.stack.len() {
        return Err(StackError::HeightMismatch);
    }
    let index = height - offset - 1;
    let storage = context.stack[index].storage;
    let value = context.load(storage);
    *original = copy_original(&context.stack[index].original);
    Ok(value)
}

/// Translates a swap of the top with the slot at depth `offset`: the two
/// cells trade values and the two slots trade origin labels. Depth zero
/// leaves everything as it was.
pub fn swap(context: &mut Context, offset: usize, height: usize) -> (r: Result<(), StackError>)
    requires
        old(context)@.wf(),
    ensures
        final(context)@.wf(),
        r is Ok <==> old(context)@.depth_check(offset as nat, height as nat) is Ok,
        r is Ok ==> final(context)@ == old(context)@.swapped(offset as nat),
        r is Err ==> r->Err_0 == old(context)@.depth_check(offset as nat, height as nat)->Err_0
            && final(context)@ == old(context)@,
{
    if offset >= height {
        return Err(StackError::StackUnderflow);
    }
    if height != context.stack.len() {
        return Err(StackError::HeightMismatch);
    }
    let ghost before = context@;
    let top = height - 1;
    let target = height - offset - 1;
    let top_storage = context.stack[top].storage;
    let target_storage = context.stack[target].storage;
    let top_value = context.load(top_storage);
    let target_value = context.load(target_storage);
    let top_original = copy_original(&context.stack[top].original);
    let target_original = copy_original(&context.stack[target].original);
    context.stack.set(top, StackSlot { storage: top_storage, original: target_original });
    context.stack.set(target, StackSlot { storage: target_storage, original: top_original });
    context.store(top_storage, target_value);
    context.store(target_storage, top_value);
    proof {
        assert(context@.slots =~= before.swapped(offset as nat).slots);
        assert(context@.cells =~= before.swapped(offset as nat).cells);
    }
    Ok(())
}

/// Translates a discard of the top. Nothing is emitted and the context is
/// left as it is: the caller shrinks the stack model, and the cell keeps its
/// value until a later push reuses it.
pub fn pop(context: &mut Context) -> (r: Result<(), StackError>)
    ensures
        r is Ok,
        final(context)@ == old(context)@,
{
    Ok(())
}

/// Exchanging the top with the same deeper slot twice restores the state.
pub proof fn lemma_swap_twice(st: StackState, offset: nat)
    requires
        st.wf(),
        0 < offset < st.slots.len(),
    ensures
        st.swapped(offset).swapped(offset) == st,
{
    let twice = st.swapped(offset).swapped(offset);
    assert(twice.slots =~= st.slots);
    assert(twice.cells =~= st.cells);
}

/// Exchanging the top with itself leaves the state unchanged.
pub proof fn lemma_swap_top_with_itself(st: StackState)
    requires
        st.wf(),
        st.slots.len() > 0,
    ensures
        st.swapped(0) == st,
{
    let once = st.swapped(0);
    assert(once.slots =~= st.slots);
    assert(once.cells =~= st.cells);
}

/// After a push, duplicating the top gives the pushed value with the pushed
/// origin label, so both slots hold the same value and label.
pub proof fn lemma_push_then_dup(st: StackState, value: Word, original: Option<String>)
    requires
        st.wf(),
        st.slots.len() < st.cells.len(),
    ensures
        st.pushed(value, original).wf(),
        st.pushed(value, original).depth_check(0, st.slots.len() + 1) is Ok,
        st.pushed(value, original).value_at_depth(0) == value,
        st.pushed(value, original).original_at_depth(0) == original,
{
    let p = st.pushed(value, original);
    assert forall|i: int| 0 <= i < p.slots.len() implies #[trigger] p.slots[i].storage
        < p.cells.len() by {
        if i < st.slots.len() {
            assert(p.slots[i] == st.slots[i]);
        }
    }
}

} // verus!
