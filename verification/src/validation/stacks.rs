//! The two stacks of the validation algorithm.
//!
//! The operand stack holds the types of the values that the instructions read
//! so far have left; the frame stack holds one frame for each block that is
//! open.  A frame records how high the operand stack was when its block was
//! entered, and blocks never reach below that height.  After an instruction
//! that never hands control on, the rest of the block cannot be reached: the
//! operand stack is cut back to the frame's height, and operands that are
//! popped from there have the unknown type, which fits any expectation.

use vstd::prelude::*;
use crate::structure::ty;
use crate::validation::error::Error;

verus! {

/// The type of an operand.
#[derive(Debug, Clone, Copy, PartialEq, Eq, Structural)]
pub enum Operand {
    /// The type of an operand in code that cannot be reached: any type.
    Unknown,
    /// A known type.
    Val(ty::Val),
}

impl vstd::std_specs::convert::FromSpecImpl<ty::Val> for Operand {
    open spec fn obeys_from_spec() -> bool {
        true
    }

    open spec fn from_spec(val: ty::Val) -> Operand {
        Operand::Val(val)
    }
}

impl From<ty::Val> for Operand {
    /// The known type `val` as the type of an operand.
    fn from(val: ty::Val) -> (r: Operand) {
        Operand::Val(val)
    }
}

/// A block that is open.
#[derive(Debug)]
pub struct Frame {
    /// The types that a branch to the block's label expects.
    pub label: Vec<ty::Val>,
    /// The types that the block leaves when it ends.
    pub out: Vec<ty::Val>,
    /// The height of the operand stack when the block was entered.
    pub height: usize,
    /// Whether the rest of the block cannot be reached.
    pub unreachable: bool,
}

/// A frame as a mathematical value.
pub struct FrameView {
    pub label: Seq<ty::Val>,
    pub out: Seq<ty::Val>,
    pub height: nat,
    pub unreachable: bool,
}

impl View for Frame {
    type V = FrameView;

    open spec fn view(&self) -> FrameView {
        FrameView { label: self.label@, out: self.out@, height: self.height as nat, unreachable: self.unreachable }
    }
}

/// The operand stack and the frame stack.
#[derive(Debug)]
pub struct Stacks {
    pub operands: Vec<Operand>,
    pub frames: Vec<Frame>,
}

/// The two stacks as a mathematical value, the top of each last.
pub struct StacksView {
    pub operands: Seq<Operand>,
    pub frames: Seq<FrameView>,
}

impl View for Stacks {
    type V = StacksView;

    open spec fn view(&self) -> StacksView {
        StacksView { operands: self.operands@, frames: Seq::new(self.frames.len() as nat, |i: int| self.frames[i]@) }
    }
}

/// The type of an operand that was found where `expected` is expected:
/// the more definite of the two, if they fit.
pub open spec fn unify(found: Operand, expected: Operand) -> Result<Operand, Error> {
    match (found, expected) {
        (Operand::Unknown, _) => Ok(expected),
        (_, Operand::Unknown) => Ok(found),
        _ => if found == expected {
            Ok(found)
        } else {
            Err(Error::TypeMismatch)
        },
    }
}

/// The known types `types` as operands.
pub open spec fn known(types: Seq<ty::Val>) -> Seq<Operand> {
    Seq::new(types.len(), |i: int| Operand::Val(types[i]))
}

impl StacksView {
    /// The stacks with `op` on top of the operands.
    pub open spec fn push(self, op: Operand) -> StacksView {
        StacksView { operands: self.operands.push(op), ..self }
    }

    /// Pops one operand, expected to be `expected`.  At the height of the
    /// current frame there is nothing to pop: that is an underflow, unless the
    /// code cannot be reached, where the operand is as expected and the stacks
    /// stay as they are.
    pub open spec fn pop(self, expected: Operand) -> Result<(StacksView, Operand), Error> {
        if self.frames.len() == 0 {
            Err(Error::MissingFrame)
        } else if self.operands.len() == self.frames.last().height {
            if self.frames.last().unreachable {
                Ok((self, expected))
            } else {
                Err(Error::StackUnderflow)
            }
        } else if self.operands.len() == 0 {
            Err(Error::StackUnderflow)
        } else {
            match unify(self.operands.last(), expected) {
                Ok(op) => Ok((StacksView { operands: self.operands.drop_last(), ..self }, op)),
                Err(e) => Err(e),
            }
        }
    }

    /// The stacks with `types` on top of the operands, the last of them
    /// topmost.
    pub open spec fn push_many(self, types: Seq<ty::Val>) -> StacksView {
        StacksView { operands: self.operands + known(types), ..self }
    }

    /// Pops operands of the types `types`, the last of them first.
    pub open spec fn pop_many(self, types: Seq<ty::Val>) -> Result<StacksView, Error>
        decreases types.len(),
    {
        if types.len() == 0 {
            Ok(self)
        } else {
            match self.pop(Operand::Val(types.last())) {
                Ok((rest, _)) => rest.pop_many(types.drop_last()),
                Err(e) => Err(e),
            }
        }
    }

    /// The stacks with a new frame on top, at the current height of the
    /// operands.
    pub open spec fn push_frame(self, label: Seq<ty::Val>, out: Seq<ty::Val>) -> StacksView {
        StacksView {
            frames: self.frames.push(
                FrameView { label, out, height: self.operands.len(), unreachable: false },
            ),
            ..self
        }
    }

    /// Ends the current frame: pops what it leaves, which must bring the
    /// operands back to the frame's height, and drops the frame.  Gives the
    /// types that the frame leaves.
    pub open spec fn pop_frame(self) -> Result<(StacksView, Seq<ty::Val>), Error> {
        if self.frames.len() == 0 {
            Err(Error::MissingFrame)
        } else {
            let frame = self.frames.last();
            match self.pop_many(frame.out) {
                Err(e) => Err(e),
                Ok(rest) => if rest.operands.len() != frame.height {
                    Err(Error::UnbalancedStack)
                } else {
                    Ok((StacksView { frames: rest.frames.drop_last(), ..rest }, frame.out))
                },
            }
        }
    }

    /// Marks the rest of the current frame as out of reach: cuts the operands
    /// back to the frame's height.
    pub open spec fn unreachable(self) -> Result<StacksView, Error> {
        if self.frames.len() == 0 {
            Err(Error::MissingFrame)
        } else {
            let frame = self.frames.last();
            Ok(
                StacksView {
                    operands: if frame.height < self.operands.len() {
                        self.operands.take(frame.height as int)
                    } else {
                        self.operands
                    },
                    frames: self.frames.drop_last().push(FrameView { unreachable: true, ..frame }),
                },
            )
        }
    }
}

/// Popping leaves the frames as they are.
pub proof fn lemma_pop_many_frames(stacks: StacksView, types: Seq<ty::Val>)
    ensures
        stacks.pop_many(types) matches Ok(rest) ==> rest.frames == stacks.frames && rest.operands.len()
            <= stacks.operands.len(),
    decreases types.len(),
{
    if types.len() > 0 {
        if let Ok((rest, _)) = stacks.pop(Operand::Val(types.last())) {
            lemma_pop_many_frames(rest, types.drop_last());
        }
    }
}

/// Whether the code at hand cannot be reached and nothing has been pushed
/// since it became so: the current frame is marked, and the operands stand at
/// its height.
pub open spec fn dead(stacks: StacksView) -> bool {
    &&& stacks.frames.len() > 0
    &&& stacks.frames.last().unreachable
    &&& stacks.operands.len() == stacks.frames.last().height
}

/// Dead code has any operands: where the code cannot be reached, operands of
/// any types are popped, and the stacks stay as they are.
pub proof fn lemma_dead_code_has_any_operands(stacks: StacksView, types: Seq<ty::Val>)
    requires
        dead(stacks),
    ensures
        stacks.pop_many(types) == Ok::<StacksView, Error>(stacks),
    decreases types.len(),
{
    if types.len() > 0 {
        lemma_dead_code_has_any_operands(stacks, types.drop_last());
    }
}

/// What follows an instruction that never hands control on is dead code.
pub proof fn lemma_unreachable_is_dead(stacks: StacksView)
    requires
        stacks.frames.len() > 0,
    ensures
        stacks.unreachable() is Ok,
        stacks.frames.last().height <= stacks.operands.len() ==> dead(stacks.unreachable()->Ok_0),
{
}

/// A copy of `types`.
pub fn copy_types(types: &[ty::Val]) -> (r: Vec<ty::Val>)
    ensures
        r@ == types@,
{
    let mut r: Vec<ty::Val> = Vec::new();
    let mut i: usize = 0;
    while i < types.len()
        invariant
            i <= types.len(),
            r@ == types@.take(i as int),
        decreases types.len() - i,
    {
        r.push(types[i]);
        i = i + 1;
        assert(r@ =~= types@.take(i as int));
    }
    assert(types@.take(types.len() as int) =~= types@);
    r
}

impl Default for Stacks {
    /// No operands and no frames.
    fn default() -> (r: Stacks)
        ensures
            r@.operands.len() == 0,
            r@.frames.len() == 0,
    {
        Stacks::new()
    }
}

impl Stacks {
    /// No operands and no frames.
    pub fn new() -> (r: Stacks)
        ensures
            r@.operands.len() == 0,
            r@.frames.len() == 0,
    {
        Stacks { operands: Vec::new(), frames: Vec::new() }
    }

    /// Pushes an operand.
    pub fn push_operand(&mut self, op: Operand)
        ensures
            final(self)@ == old(self)@.push(op),
    {
        self.operands.push(op);
        assert(final(self)@.frames =~= old(self)@.frames);
    }

    /// Pops an operand that is expected to be `op`, and gives its type.
    pub fn pop_operand(&mut self, op: Operand) -> (r: Result<Operand, Error>)
        ensures
            match old(self)@.pop(op) {
                Ok((rest, found)) => r == Ok::<Operand, Error>(found) && final(self)@ == rest,
                Err(e) => r == Err::<Operand, Error>(e),
            },
    {
        let n = self.frames.len();
        if n == 0 {
            return Err(Error::MissingFrame);
        }
        let height = self.frames[n - 1].height;
        let unreachable = self.frames[n - 1].unreachable;
        assert(self@.frames.last() == self.frames[n - 1]@);
        if self.operands.len() == height && unreachable {
            return Ok(op);
        }
        if self.operands.len() == height {
            return Err(Error::StackUnderflow);
        }
        let val = match self.operands.pop() {
            Some(val) => val,
            None => {
                return Err(Error::StackUnderflow);
            },
        };
        assert(final(self)@.frames =~= old(self)@.frames);
        match (val, op) {
            (Operand::Unknown, _) => Ok(op),
            (_, Operand::Unknown) => Ok(val),
            (Operand::Val(found), Operand::Val(expected)) => if found == expected {
                Ok(val)
            } else {
                Err(Error::TypeMismatch)
            },
        }
    }

    /// Pushes operands of the types `ops`, the last of them topmost.
    pub fn push_operands(&mut self, ops: &[ty::Val])
        ensures
            final(self)@ == old(self)@.push_many(ops@),
    {
        let mut i: usize = 0;
        while i < ops.len()
            invariant
                i <= ops.len(),
                self@ == old(self)@.push_many(ops@.take(i as int)),
            decreases ops.len() - i,
        {
            let ghost before = self@;
            self.push_operand(Operand::Val(ops[i]));
            i = i + 1;
            assert(self@.operands =~= old(self)@.operands + known(ops@.take(i as int)));
        }
        assert(ops@.take(ops.len() as int) =~= ops@);
    }

    /// Pops operands of the types `ops`, the last of them first.
    pub fn pop_operands(&mut self, ops: &[ty::Val]) -> (r: Result<(), Error>)
        ensures
            match old(self)@.pop_many(ops@) {
                Ok(rest) => r is Ok && final(self)@ == rest,
                Err(e) => r == Err::<(), Error>(e),
            },
    {
        let mut i: usize = ops.len();
        assert(ops@.take(i as int) =~= ops@);
        while i > 0
            invariant
                i <= ops.len(),
                old(self)@.pop_many(ops@) == self@.pop_many(ops@.take(i as int)),
            decreases i,
        {
            i = i - 1;
            assert(ops@.take(i + 1).drop_last() =~= ops@.take(i as int));
            match self.pop_operand(Operand::Val(ops[i])) {
                Ok(_) => {},
                Err(e) => {
                    return Err(e);
                },
            }
        }
        Ok(())
    }

    /// Opens a frame at the current height of the operands.
    pub fn push_frame(&mut self, label: &[ty::Val], out: &[ty::Val])
        ensures
            final(self)@ == old(self)@.push_frame(label@, out@),
    {
        let frame = Frame {
            label: copy_types(label),
            out: copy_types(out),
            height: self.operands.len(),
            unreachable: false,
        };
        self.frames.push(frame);
        assert(final(self)@.frames =~= old(self)@.push_frame(label@, out@).frames);
    }

    /// Ends the current frame and gives the types that it leaves.
    pub fn pop_frame(&mut self) -> (r: Result<Vec<ty::Val>, Error>)
        ensures
            match old(self)@.pop_frame() {
                Ok((rest, out)) => r is Ok && r->Ok_0@ == out && final(self)@ == rest,
                Err(e) => r is Err && r->Err_0 == e,
            },
    {
        let n = self.frames.len();
        if n == 0 {
            return Err(Error::MissingFrame);
        }
        assert(self@.frames.last() == self.frames[n - 1]@);
        let out = copy_types(self.frames[n - 1].out.as_slice());
        let height = self.frames[n - 1].height;
        proof {
            lemma_pop_many_frames(self@, out@);
        }
        match self.pop_operands(out.as_slice()) {
            Ok(()) => {},
            Err(e) => {
                return Err(e);
            },
        }
        if self.operands.len() != height {
            return Err(Error::UnbalancedStack);
        }
        let ghost popped = self@;
        let _ = self.frames.pop();
        assert(self@.frames =~= popped.frames.drop_last());
        Ok(out)
    }

    /// Marks the rest of the current frame as out of reach.
    pub fn unreachable(&mut self) -> (r: Result<(), Error>)
        ensures
            match old(self)@.unreachable() {
                Ok(rest) => r is Ok && final(self)@ == rest,
                Err(e) => r == Err::<(), Error>(e),
            },
    {
        let frame = match self.frames.pop() {
            Some(frame) => frame,
            None => {
                return Err(Error::MissingFrame);
            },
        };
        assert(old(self)@.frames.last() == frame@);
        self.operands.truncate(frame.height);
        self.frames.push(Frame { label: frame.label, out: frame.out, height: frame.height, unreachable: true });
        assert(final(self)@.frames =~= old(self)@.unreachable()->Ok_0.frames);
        assert(final(self)@.operands =~= old(self)@.unreachable()->Ok_0.operands);
        Ok(())
    }
}

} // verus!
