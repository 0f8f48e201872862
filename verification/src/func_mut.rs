use core::marker::PhantomData;
use vstd::pervasive::cloned;
use vstd::prelude::*;
use vstd::std_specs::cmp::PartialEqSpec;

verus! {

/// The mutable kind: a repeatable, stateful callable value. Each call hands
/// the captured state to the function and stores the evolved state back into
/// the entity, so changes persist across subsequent calls on the same entity.
///
/// Verus does not support mutable references inside function-value argument
/// tuples, so the function slot takes the current state by shared reference
/// and returns the new state beside the result: `Fn(&C, P) -> (C, R)`. The
/// captured state is carried entirely in `captured`, never inside the
/// function slot.
#[derive(Debug)]
pub struct FuncMut<C, P, R, F> {
    /// The owned captured-state value; evolved in place by each call.
    pub captured: C,
    /// The non-capturing function that every call dispatches to.
    pub function: F,
    /// Pins the parameter-list and return-type slots that the function slot
    /// serves; carries no data.
    pub arity: PhantomData<(P, R)>,
}

impl<C, R, F: Fn(&C, ()) -> (C, R)> FuncMut<C, (), R, F> {
    /// Builds the zero-parameter specialization from its captured state and
    /// function; construction is atomic and total.
    pub fn new0(captured: C, function: F) -> (res: Self)
        ensures
            res.captured == captured,
            res.function == function,
    {
        FuncMut { captured, function, arity: PhantomData }
    }

    /// Invokes the function with the current captured state and the given
    /// arguments, stores the state the function hands back, and returns the
    /// result: the new state and the result are exactly a pair the function
    /// itself could produce on that input, so state changes persist across
    /// subsequent calls on this entity.
    pub fn call(&mut self) -> (r: R)
        requires
            call_requires(old(self).function, (&old(self).captured, ())),
        ensures
            final(self).function == old(self).function,
            call_ensures(
                old(self).function,
                (&old(self).captured, ()),
                (final(self).captured, r),
            ),
    {
        let (next, r) = (self.function)(&self.captured, ());
        self.captured = next;
        r
    }
}

impl<C, P1, R, F: Fn(&C, (P1,)) -> (C, R)> FuncMut<C, (P1,), R, F> {
    /// Builds the one-parameter specialization from its captured state and
    /// function; construction is atomic and total.
    pub fn new1(captured: C, function: F) -> (res: Self)
        ensures
            res.captured == captured,
            res.function == function,
    {
        FuncMut { captured, function, arity: PhantomData }
    }

    /// Invokes the function with the current captured state and the given
    /// arguments, stores the state the function hands back, and returns the
    /// result: the new state and the result are exactly a pair the function
    /// itself could produce on that input, so state changes persist across
    /// subsequent calls on this entity.
    pub fn call(&mut self, p1: P1) -> (r: R)
        requires
            call_requires(old(self).function, (&old(self).captured, (p1,))),
        ensures
            final(self).function == old(self).function,
            call_ensures(
                old(self).function,
                (&old(self).captured, (p1,)),
                (final(self).captured, r),
            ),
    {
        let (next, r) = (self.function)(&self.captured, (p1,));
        self.captured = next;
        r
    }
}

impl<C, P1, P2, R, F: Fn(&C, (P1, P2)) -> (C, R)> FuncMut<C, (P1, P2), R, F> {
    /// Builds the two-parameter specialization from its captured state and
    /// function; construction is atomic and total.
    pub fn new2(captured: C, function: F) -> (res: Self)
        ensures
            res.captured == captured,
            res.function == function,
    {
        FuncMut { captured, function, arity: PhantomData }
    }

    /// Invokes the function with the current captured state and the given
    /// arguments, stores the state the function hands back, and returns the
    /// result: the new state and the result are exactly a pair the function
    /// itself could produce on that input, so state changes persist across
    /// subsequent calls on this entity.
    pub fn call(&mut self, p1: P1, p2: P2) -> (r: R)
        requires
            call_requires(old(self).function, (&old(self).captured, (p1, p2))),
        ensures
            final(self).function == old(self).function,
            call_ensures(
                old(self).function,
                (&old(self).captured, (p1, p2)),
                (final(self).captured, r),
            ),
    {
        let (next, r) = (self.function)(&self.captured, (p1, p2));
        self.captured = next;
        r
    }
}

impl<C, P1, P2, P3, R, F: Fn(&C, (P1, P2, P3)) -> (C, R)> FuncMut<C, (P1, P2, P3), R, F> {
    /// Builds the three-parameter specialization from its captured state and
    /// function; construction is atomic and total.
    pub fn new3(captured: C, function: F) -> (res: Self)
        ensures
            res.captured == captured,
            res.function == function,
    {
        FuncMut { captured, function, arity: PhantomData }
    }

    /// Invokes the function with the current captured state and the given
    /// arguments, stores the state the function hands back, and returns the
    /// result: the new state and the result are exactly a pair the function
    /// itself could produce on that input, so state changes persist across
    /// subsequent calls on this entity.
    pub fn call(&mut self, p1: P1, p2: P2, p3: P3) -> (r: R)
        requires
            call_requires(old(self).function, (&old(self).captured, (p1, p2, p3))),
        ensures
            final(self).function == old(self).function,
            call_ensures(
                old(self).function,
                (&old(self).captured, (p1, p2, p3)),
                (final(self).captured, r),
            ),
    {
        let (next, r) = (self.function)(&self.captured, (p1, p2, p3));
        self.captured = next;
        r
    }
}

impl<C, P1, P2, P3, P4, R, F: Fn(&C, (P1, P2, P3, P4)) -> (C, R)> FuncMut<C, (P1, P2, P3, P4), R, F> {
    /// Builds the four-parameter specialization from its captured state and
    /// function; construction is atomic and total.
    pub fn new4(captured: C, function: F) -> (res: Self)
        ensures
            res.captured == captured,
            res.function == function,
    {
        FuncMut { captured, function, arity: PhantomData }
    }

    /// Invokes the function with the current captured state and the given
    /// arguments, stores the state the function hands back, and returns the
    /// result: the new state and the result are exactly a pair the function
    /// itself could produce on that input, so state changes persist across
    /// subsequent calls on this entity.
    pub fn call(&mut self, p1: P1, p2: P2, p3: P3, p4: P4) -> (r: R)
        requires
            call_requires(old(self).function, (&old(self).captured, (p1, p2, p3, p4))),
        ensures
            final(self).function == old(self).function,
            call_ensures(
                old(self).function,
                (&old(self).captured, (p1, p2, p3, p4)),
                (final(self).captured, r),
            ),
    {
        let (next, r) = (self.function)(&self.captured, (p1, p2, p3, p4));
        self.captured = next;
        r
    }
}

impl<C, P1, P2, P3, P4, P5, R, F: Fn(&C, (P1, P2, P3, P4, P5)) -> (C, R)> FuncMut<C, (P1, P2, P3, P4, P5), R, F> {
    /// Builds the five-parameter specialization from its captured state and
    /// function; construction is atomic and total.
    pub fn new5(captured: C, function: F) -> (res: Self)
        ensures
            res.captured == captured,
            res.function == function,
    {
        FuncMut { captured, function, arity: PhantomData }
    }

    /// Invokes the function with the current captured state and the given
    /// arguments, stores the state the function hands back, and returns the
    /// result: the new state and the result are exactly a pair the function
    /// itself could produce on that input, so state changes persist across
    /// subsequent calls on this entity.
    pub fn call(&mut self, p1: P1, p2: P2, p3: P3, p4: P4, p5: P5) -> (r: R)
        requires
            call_requires(old(self).function, (&old(self).captured, (p1, p2, p3, p4, p5))),
        ensures
            final(self).function == old(self).function,
            call_ensures(
                old(self).function,
                (&old(self).captured, (p1, p2, p3, p4, p5)),
                (final(self).captured, r),
            ),
    {
        let (next, r) = (self.function)(&self.captured, (p1, p2, p3, p4, p5));
        self.captured = next;
        r
    }
}

impl<C, P1, P2, P3, P4, P5, P6, R, F: Fn(&C, (P1, P2, P3, P4, P5, P6)) -> (C, R)> FuncMut<C, (P1, P2, P3, P4, P5, P6), R, F> {
    /// Builds the six-parameter specialization from its captured state and
    /// function; construction is atomic and total.
    pub fn new6(captured: C, function: F) -> (res: Self)
        ensures
            res.captured == captured,
            res.function == function,
    {
        FuncMut { captured, function, arity: PhantomData }
    }

    /// Invokes the function with the current captured state and the given
    /// arguments, stores the state the function hands back, and returns the
    /// result: the new state and the result are exactly a pair the function
    /// itself could produce on that input, so state changes persist across
    /// subsequent calls on this entity.
    pub fn call(&mut self, p1: P1, p2: P2, p3: P3, p4: P4, p5: P5, p6: P6) -> (r: R)
        requires
            call_requires(old(self).function, (&old(self).captured, (p1, p2, p3, p4, p5, p6))),
        ensures
            final(self).function == old(self).function,
            call_ensures(
                old(self).function,
                (&old(self).captured, (p1, p2, p3, p4, p5, p6)),
                (final(self).captured, r),
            ),
    {
        let (next, r) = (self.function)(&self.captured, (p1, p2, p3, p4, p5, p6));
        self.captured = next;
        r
    }
}

impl<C, P1, P2, P3, P4, P5, P6, P7, R, F: Fn(&C, (P1, P2, P3, P4, P5, P6, P7)) -> (C, R)> FuncMut<C, (P1, P2, P3, P4, P5, P6, P7), R, F> {
    /// Builds the seven-parameter specialization from its captured state and
    /// function; construction is atomic and total.
    pub fn new7(captured: C, function: F) -> (res: Self)
        ensures
            res.captured == captured,
            res.function == function,
    {
        FuncMut { captured, function, arity: PhantomData }
    }

    /// Invokes the function with the current captured state and the given
    /// arguments, stores the state the function hands back, and returns the
    /// result: the new state and the result are exactly a pair the function
    /// itself could produce on that input, so state changes persist across
    /// subsequent calls on this entity.
    pub fn call(&mut self, p1: P1, p2: P2, p3: P3, p4: P4, p5: P5, p6: P6, p7: P7) -> (r: R)
        requires
            call_requires(old(self).function, (&old(self).captured, (p1, p2, p3, p4, p5, p6, p7))),
        ensures
            final(self).function == old(self).function,
            call_ensures(
                old(self).function,
                (&old(self).captured, (p1, p2, p3, p4, p5, p6, p7)),
                (final(self).captured, r),
            ),
    {
        let (next, r) = (self.function)(&self.captured, (p1, p2, p3, p4, p5, p6, p7));
        self.captured = next;
        r
    }
}

impl<C, P1, P2, P3, P4, P5, P6, P7, P8, R, F: Fn(&C, (P1, P2, P3, P4, P5, P6, P7, P8)) -> (C, R)> FuncMut<C, (P1, P2, P3, P4, P5, P6, P7, P8), R, F> {
    /// Builds the eight-parameter specialization from its captured state and
    /// function; construction is atomic and total.
    pub fn new8(captured: C, function: F) -> (res: Self)
        ensures
            res.captured == captured,
            res.function == function,
    {
        FuncMut { captured, function, arity: PhantomData }
    }

    /// Invokes the function with the current captured state and the given
    /// arguments, stores the state the function hands back, and returns the
    /// result: the new state and the result are exactly a pair the function
    /// itself could produce on that input, so state changes persist across
    /// subsequent calls on this entity.
    pub fn call(&mut self, p1: P1, p2: P2, p3: P3, p4: P4, p5: P5, p6: P6, p7: P7, p8: P8) -> (r: R)
        requires
            call_requires(old(self).function, (&old(self).captured, (p1, p2, p3, p4, p5, p6, p7, p8))),
        ensures
            final(self).function == old(self).function,
            call_ensures(
                old(self).function,
                (&old(self).captured, (p1, p2, p3, p4, p5, p6, p7, p8)),
                (final(self).captured, r),
            ),
    {
        let (next, r) = (self.function)(&self.captured, (p1, p2, p3, p4, p5, p6, p7, p8));
        self.captured = next;
        r
    }
}

impl<C: Clone, P, R, F: Clone> Clone for FuncMut<C, P, R, F> {
    /// Duplicates the entity field by field: the copy's captured state is a
    /// possible clone of the original's, the function slot likewise, and the
    /// copy is independent of the original thereafter.
    fn clone(&self) -> (res: Self)
        ensures
            cloned(self.captured, res.captured),
            cloned(self.function, res.function),
    {
        FuncMut {
            captured: self.captured.clone(),
            function: self.function.clone(),
            arity: PhantomData,
        }
    }
}

impl<C: Copy, P, R, F: Copy> Copy for FuncMut<C, P, R, F> {

}

impl<C: PartialEq, P, R, F: PartialEq> PartialEq for FuncMut<C, P, R, F> {
    /// Two entities are equal exactly when both the captured states and the
    /// function slots are equal; changing either breaks equality.
    fn eq(&self, other: &Self) -> (r: bool) {
        self.captured == other.captured && self.function == other.function
    }
}

impl<C: PartialEq, P, R, F: PartialEq> vstd::std_specs::cmp::PartialEqSpecImpl for FuncMut<C, P, R, F> {
    open spec fn obeys_eq_spec() -> bool {
        C::obeys_eq_spec() && F::obeys_eq_spec()
    }

    open spec fn eq_spec(&self, other: &Self) -> bool {
        self.captured.eq_spec(&other.captured) && self.function.eq_spec(&other.function)
    }
}

impl<C: Eq, P, R, F: Eq> Eq for FuncMut<C, P, R, F> {

}

/// Law: equality between two entities of this kind holds exactly when both
/// the captured states and the function slots are equal, so a change to
/// either field alone breaks it.
pub proof fn lemma_func_mut_eq_characterization<C: PartialEq, P, R, F: PartialEq>(
    a: &FuncMut<C, P, R, F>,
    b: &FuncMut<C, P, R, F>,
)
    ensures
        a.eq_spec(b) <==> (a.captured.eq_spec(&b.captured) && a.function.eq_spec(&b.function)),
{
}

} // verus!
