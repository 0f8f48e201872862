use core::marker::PhantomData;
use vstd::pervasive::cloned;
use vstd::prelude::*;
use vstd::std_specs::cmp::PartialEqSpec;

verus! {

/// The read-only kind: a callable value whose captured state is handed to the
/// function by shared reference on each call, so the entity itself never
/// changes and may be called any number of times.
///
/// `C` is the captured-state type, `P` the parameter-list tuple that encodes
/// the arity, `R` the return type, and `F` the function slot — a plain,
/// non-capturing callable of shape `Fn(&C, P) -> R`. Verus has no function
/// pointer type, so the slot is a type parameter; a bare function or a
/// non-capturing closure fills it, and function pointers in particular
/// support the equality and copying that the contracts below speak of. The
/// captured state is carried entirely in `captured`, never inside the
/// function slot.
#[derive(Debug)]
pub struct Func<C, P, R, F> {
    /// The owned captured-state value: the sole carrier of environment data.
    pub captured: C,
    /// The non-capturing function that every call dispatches to.
    pub function: F,
    /// Pins the parameter-list and return-type slots that the function slot
    /// serves; carries no data.
    pub arity: PhantomData<(P, R)>,
}

impl<C, R, F: Fn(&C, ()) -> R> Func<C, (), R, F> {
    /// Builds the zero-parameter specialization from its captured state and
    /// function; construction is atomic and total.
    pub fn new0(captured: C, function: F) -> (res: Self)
        ensures
            res.captured == captured,
            res.function == function,
    {
        Func { captured, function, arity: PhantomData }
    }

    /// Invokes the function with a shared reference to the captured state and
    /// the given arguments; the result is exactly a result the function
    /// itself could return on that input, and the entity is unchanged and
    /// remains callable.
    pub fn call(&self) -> (r: R)
        requires
            call_requires(self.function, (&self.captured, ())),
        ensures
            call_ensures(self.function, (&self.captured, ()), r),
    {
        (self.function)(&self.captured, ())
    }

    /// Converts the entity into a native callable value that owns the
    /// entity's two fields and performs the same dispatch as `call`: whatever
    /// the entity's function accepts, the callable accepts, and whatever the
    /// callable returns, the entity's function could have returned.
    pub fn to_fn(self) -> (res: impl Fn() -> R)
        ensures
            call_requires(self.function, (&self.captured, ())) ==> call_requires(res, ()),
            forall|r: R|
                #[trigger] call_ensures(res, (), r) ==> call_ensures(
                    self.function,
                    (&self.captured, ()),
                    r,
                ),
    {
        let Func { captured, function, arity: _ } = self;
        (move || -> (r: R)
            requires
                call_requires(function, (&captured, ())),
            ensures
                call_ensures(function, (&captured, ()), r),
            { function(&captured, ()) })
    }
}

impl<C, P1, R, F: Fn(&C, (P1,)) -> R> Func<C, (P1,), R, F> {
    /// Builds the one-parameter specialization from its captured state and
    /// function; construction is atomic and total.
    pub fn new1(captured: C, function: F) -> (res: Self)
        ensures
            res.captured == captured,
            res.function == function,
    {
        Func { captured, function, arity: PhantomData }
    }

    /// Invokes the function with a shared reference to the captured state and
    /// the given arguments; the result is exactly a result the function
    /// itself could return on that input, and the entity is unchanged and
    /// remains callable.
    pub fn call(&self, p1: P1) -> (r: R)
        requires
            call_requires(self.function, (&self.captured, (p1,))),
        ensures
            call_ensures(self.function, (&self.captured, (p1,)), r),
    {
        (self.function)(&self.captured, (p1,))
    }

    /// Converts the entity into a native callable value that owns the
    /// entity's two fields and performs the same dispatch as `call`: whatever
    /// the entity's function accepts, the callable accepts, and whatever the
    /// callable returns, the entity's function could have returned.
    pub fn to_fn(self) -> (res: impl Fn(P1) -> R)
        ensures
            forall|p1: P1|
                call_requires(self.function, (&self.captured, (p1,))) ==> #[trigger] call_requires(
                    res,
                    (p1,),
                ),
            forall|p1: P1, r: R|
                #[trigger] call_ensures(res, (p1,), r) ==> call_ensures(
                    self.function,
                    (&self.captured, (p1,)),
                    r,
                ),
    {
        let Func { captured, function, arity: _ } = self;
        (move |p1: P1| -> (r: R)
            requires
                call_requires(function, (&captured, (p1,))),
            ensures
                call_ensures(function, (&captured, (p1,)), r),
            { function(&captured, (p1,)) })
    }
}

impl<C, P1, P2, R, F: Fn(&C, (P1, P2)) -> R> Func<C, (P1, P2), R, F> {
    /// Builds the two-parameter specialization from its captured state and
    /// function; construction is atomic and total.
    pub fn new2(captured: C, function: F) -> (res: Self)
        ensures
            res.captured == captured,
            res.function == function,
    {
        Func { captured, function, arity: PhantomData }
    }

    /// Invokes the function with a shared reference to the captured state and
    /// the given arguments; the result is exactly a result the function
    /// itself could return on that input, and the entity is unchanged and
    /// remains callable.
    pub fn call(&self, p1: P1, p2: P2) -> (r: R)
        requires
            call_requires(self.function, (&self.captured, (p1, p2))),
        ensures
            call_ensures(self.function, (&self.captured, (p1, p2)), r),
    {
        (self.function)(&self.captured, (p1, p2))
    }

    /// Converts the entity into a native callable value that owns the
    /// entity's two fields and performs the same dispatch as `call`: whatever
    /// the entity's function accepts, the callable accepts, and whatever the
    /// callable returns, the entity's function could have returned.
    pub fn to_fn(self) -> (res: impl Fn(P1, P2) -> R)
        ensures
            forall|p1: P1, p2: P2|
                call_requires(self.function, (&self.captured, (p1, p2))) ==> #[trigger] call_requires(
                    res,
                    (p1, p2),
                ),
            forall|p1: P1, p2: P2, r: R|
                #[trigger] call_ensures(res, (p1, p2), r) ==> call_ensures(
                    self.function,
                    (&self.captured, (p1, p2)),
                    r,
                ),
    {
        let Func { captured, function, arity: _ } = self;
        (move |p1: P1, p2: P2| -> (r: R)
            requires
                call_requires(function, (&captured, (p1, p2))),
            ensures
                call_ensures(function, (&captured, (p1, p2)), r),
            { function(&captured, (p1, p2)) })
    }
}

impl<C, P1, P2, P3, R, F: Fn(&C, (P1, P2, P3)) -> R> Func<C, (P1, P2, P3), R, F> {
    /// Builds the three-parameter specialization from its captured state and
    /// function; construction is atomic and total.
    pub fn new3(captured: C, function: F) -> (res: Self)
        ensures
            res.captured == captured,
            res.function == function,
    {
        Func { captured, function, arity: PhantomData }
    }

    /// Invokes the function with a shared reference to the captured state and
    /// the given arguments; the result is exactly a result the function
    /// itself could return on that input, and the entity is unchanged and
    /// remains callable.
    pub fn call(&self, p1: P1, p2: P2, p3: P3) -> (r: R)
        requires
            call_requires(self.function, (&self.captured, (p1, p2, p3))),
        ensures
            call_ensures(self.function, (&self.captured, (p1, p2, p3)), r),
    {
        (self.function)(&self.captured, (p1, p2, p3))
    }

    /// Converts the entity into a native callable value that owns the
    /// entity's two fields and performs the same dispatch as `call`: whatever
    /// the entity's function accepts, the callable accepts, and whatever the
    /// callable returns, the entity's function could have returned.
    pub fn to_fn(self) -> (res: impl Fn(P1, P2, P3) -> R)
        ensures
            forall|p1: P1, p2: P2, p3: P3|
                call_requires(self.function, (&self.captured, (p1, p2, p3))) ==> #[trigger] call_requires(
                    res,
                    (p1, p2, p3),
                ),
            forall|p1: P1, p2: P2, p3: P3, r: R|
                #[trigger] call_ensures(res, (p1, p2, p3), r) ==> call_ensures(
                    self.function,
                    (&self.captured, (p1, p2, p3)),
                    r,
                ),
    {
        let Func { captured, function, arity: _ } = self;
        (move |p1: P1, p2: P2, p3: P3| -> (r: R)
            requires
                call_requires(function, (&captured, (p1, p2, p3))),
            ensures
                call_ensures(function, (&captured, (p1, p2, p3)), r),
            { function(&captured, (p1, p2, p3)) })
    }
}

impl<C, P1, P2, P3, P4, R, F: Fn(&C, (P1, P2, P3, P4)) -> R> Func<C, (P1, P2, P3, P4), R, F> {
    /// Builds the four-parameter specialization from its captured state and
    /// function; construction is atomic and total.
    pub fn new4(captured: C, function: F) -> (res: Self)
        ensures
            res.captured == captured,
            res.function == function,
    {
        Func { captured, function, arity: PhantomData }
    }

    /// Invokes the function with a shared reference to the captured state and
    /// the given arguments; the result is exactly a result the function
    /// itself could return on that input, and the entity is unchanged and
    /// remains callable.
    pub fn call(&self, p1: P1, p2: P2, p3: P3, p4: P4) -> (r: R)
        requires
            call_requires(self.function, (&self.captured, (p1, p2, p3, p4))),
        ensures
            call_ensures(self.function, (&self.captured, (p1, p2, p3, p4)), r),
    {
        (self.function)(&self.captured, (p1, p2, p3, p4))
    }

    /// Converts the entity into a native callable value that owns the
    /// entity's two fields and performs the same dispatch as `call`: whatever
    /// the entity's function accepts, the callable accepts, and whatever the
    /// callable returns, the entity's function could have returned.
    pub fn to_fn(self) -> (res: impl Fn(P1, P2, P3, P4) -> R)
        ensures
            forall|p1: P1, p2: P2, p3: P3, p4: P4|
                call_requires(self.function, (&self.captured, (p1, p2, p3, p4))) ==> #[trigger] call_requires(
                    res,
                    (p1, p2, p3, p4),
                ),
            forall|p1: P1, p2: P2, p3: P3, p4: P4, r: R|
                #[trigger] call_ensures(res, (p1, p2, p3, p4), r) ==> call_ensures(
                    self.function,
                    (&self.captured, (p1, p2, p3, p4)),
                    r,
                ),
    {
        let Func { captured, function, arity: _ } = self;
        (move |p1: P1, p2: P2, p3: P3, p4: P4| -> (r: R)
            requires
                call_requires(function, (&captured, (p1, p2, p3, p4))),
            ensures
                call_ensures(function, (&captured, (p1, p2, p3, p4)), r),
            { function(&captured, (p1, p2, p3, p4)) })
    }
}

impl<C, P1, P2, P3, P4, P5, R, F: Fn(&C, (P1, P2, P3, P4, P5)) -> R> Func<C, (P1, P2, P3, P4, P5), R, F> {
    /// Builds the five-parameter specialization from its captured state and
    /// function; construction is atomic and total.
    pub fn new5(captured: C, function: F) -> (res: Self)
        ensures
            res.captured == captured,
            res.function == function,
    {
        Func { captured, function, arity: PhantomData }
    }

    /// Invokes the function with a shared reference to the captured state and
    /// the given arguments; the result is exactly a result the function
    /// itself could return on that input, and the entity is unchanged and
    /// remains callable.
    pub fn call(&self, p1: P1, p2: P2, p3: P3, p4: P4, p5: P5) -> (r: R)
        requires
            call_requires(self.function, (&self.captured, (p1, p2, p3, p4, p5))),
        ensures
            call_ensures(self.function, (&self.captured, (p1, p2, p3, p4, p5)), r),
    {
        (self.function)(&self.captured, (p1, p2, p3, p4, p5))
    }

    /// Converts the entity into a native callable value that owns the
    /// entity's two fields and performs the same dispatch as `call`: whatever
    /// the entity's function accepts, the callable accepts, and whatever the
    /// callable returns, the entity's function could have returned.
    pub fn to_fn(self) -> (res: impl Fn(P1, P2, P3, P4, P5) -> R)
        ensures
            forall|p1: P1, p2: P2, p3: P3, p4: P4, p5: P5|
                call_requires(self.function, (&self.captured, (p1, p2, p3, p4, p5))) ==> #[trigger] call_requires(
                    res,
                    (p1, p2, p3, p4, p5),
                ),
            forall|p1: P1, p2: P2, p3: P3, p4: P4, p5: P5, r: R|
                #[trigger] call_ensures(res, (p1, p2, p3, p4, p5), r) ==> call_ensures(
                    self.function,
                    (&self.captured, (p1, p2, p3, p4, p5)),
                    r,
                ),
    {
        let Func { captured, function, arity: _ } = self;
        (move |p1: P1, p2: P2, p3: P3, p4: P4, p5: P5| -> (r: R)
            requires
                call_requires(function, (&captured, (p1, p2, p3, p4, p5))),
            ensures
                call_ensures(function, (&captured, (p1, p2, p3, p4, p5)), r),
            { function(&captured, (p1, p2, p3, p4, p5)) })
    }
}

impl<C, P1, P2, P3, P4, P5, P6, R, F: Fn(&C, (P1, P2, P3, P4, P5, P6)) -> R> Func<C, (P1, P2, P3, P4, P5, P6), R, F> {
    /// Builds the six-parameter specialization from its captured state and
    /// function; construction is atomic and total.
    pub fn new6(captured: C, function: F) -> (res: Self)
        ensures
            res.captured == captured,
            res.function == function,
    {
        Func { captured, function, arity: PhantomData }
    }

    /// Invokes the function with a shared reference to the captured state and
    /// the given arguments; the result is exactly a result the function
    /// itself could return on that input, and the entity is unchanged and
    /// remains callable.
    pub fn call(&self, p1: P1, p2: P2, p3: P3, p4: P4, p5: P5, p6: P6) -> (r: R)
        requires
            call_requires(self.function, (&self.captured, (p1, p2, p3, p4, p5, p6))),
        ensures
            call_ensures(self.function, (&self.captured, (p1, p2, p3, p4, p5, p6)), r),
    {
        (self.function)(&self.captured, (p1, p2, p3, p4, p5, p6))
    }

    /// Converts the entity into a native callable value that owns the
    /// entity's two fields and performs the same dispatch as `call`: whatever
    /// the entity's function accepts, the callable accepts, and whatever the
    /// callable returns, the entity's function could have returned.
    pub fn to_fn(self) -> (res: impl Fn(P1, P2, P3, P4, P5, P6) -> R)
        ensures
            forall|p1: P1, p2: P2, p3: P3, p4: P4, p5: P5, p6: P6|
                call_requires(self.function, (&self.captured, (p1, p2, p3, p4, p5, p6))) ==> #[trigger] call_requires(
                    res,
                    (p1, p2, p3, p4, p5, p6),
                ),
            forall|p1: P1, p2: P2, p3: P3, p4: P4, p5: P5, p6: P6, r: R|
                #[trigger] call_ensures(res, (p1, p2, p3, p4, p5, p6), r) ==> call_ensures(
                    self.function,
                    (&self.captured, (p1, p2, p3, p4, p5, p6)),
                    r,
                ),
    {
        let Func { captured, function, arity: _ } = self;
        (move |p1: P1, p2: P2, p3: P3, p4: P4, p5: P5, p6: P6| -> (r: R)
            requires
                call_requires(function, (&captured, (p1, p2, p3, p4, p5, p6))),
            ensures
                call_ensures(function, (&captured, (p1, p2, p3, p4, p5, p6)), r),
            { function(&captured, (p1, p2, p3, p4, p5, p6)) })
    }
}

impl<C, P1, P2, P3, P4, P5, P6, P7, R, F: Fn(&C, (P1, P2, P3, P4, P5, P6, P7)) -> R> Func<C, (P1, P2, P3, P4, P5, P6, P7), R, F> {
    /// Builds the seven-parameter specialization from its captured state and
    /// function; construction is atomic and total.
    pub fn new7(captured: C, function: F) -> (res: Self)
        ensures
            res.captured == captured,
            res.function == function,
    {
        Func { captured, function, arity: PhantomData }
    }

    /// Invokes the function with a shared reference to the captured state and
    /// the given arguments; the result is exactly a result the function
    /// itself could return on that input, and the entity is unchanged and
    /// remains callable.
    pub fn call(&self, p1: P1, p2: P2, p3: P3, p4: P4, p5: P5, p6: P6, p7: P7) -> (r: R)
        requires
            call_requires(self.function, (&self.captured, (p1, p2, p3, p4, p5, p6, p7))),
        ensures
            call_ensures(self.function, (&self.captured, (p1, p2, p3, p4, p5, p6, p7)), r),
    {
        (self.function)(&self.captured, (p1, p2, p3, p4, p5, p6, p7))
    }

    /// Converts the entity into a native callable value that owns the
    /// entity's two fields and performs the same dispatch as `call`: whatever
    /// the entity's function accepts, the callable accepts, and whatever the
    /// callable returns, the entity's function could have returned.
    pub fn to_fn(self) -> (res: impl Fn(P1, P2, P3, P4, P5, P6, P7) -> R)
        ensures
            forall|p1: P1, p2: P2, p3: P3, p4: P4, p5: P5, p6: P6, p7: P7|
                call_requires(self.function, (&self.captured, (p1, p2, p3, p4, p5, p6, p7))) ==> #[trigger] call_requires(
                    res,
                    (p1, p2, p3, p4, p5, p6, p7),
                ),
            forall|p1: P1, p2: P2, p3: P3, p4: P4, p5: P5, p6: P6, p7: P7, r: R|
                #[trigger] call_ensures(res, (p1, p2, p3, p4, p5, p6, p7), r) ==> call_ensures(
                    self.function,
                    (&self.captured, (p1, p2, p3, p4, p5, p6, p7)),
                    r,
                ),
    {
        let Func { captured, function, arity: _ } = self;
        (move |p1: P1, p2: P2, p3: P3, p4: P4, p5: P5, p6: P6, p7: P7| -> (r: R)
            requires
                call_requires(function, (&captured, (p1, p2, p3, p4, p5, p6, p7))),
            ensures
                call_ensures(function, (&captured, (p1, p2, p3, p4, p5, p6, p7)), r),
            { function(&captured, (p1, p2, p3, p4, p5, p6, p7)) })
    }
}

impl<C, P1, P2, P3, P4, P5, P6, P7, P8, R, F: Fn(&C, (P1, P2, P3, P4, P5, P6, P7, P8)) -> R> Func<C, (P1, P2, P3, P4, P5, P6, P7, P8), R, F> {
    /// Builds the eight-parameter specialization from its captured state and
    /// function; construction is atomic and total.
    pub fn new8(captured: C, function: F) -> (res: Self)
        ensures
            res.captured == captured,
            res.function == function,
    {
        Func { captured, function, arity: PhantomData }
    }

    /// Invokes the function with a shared reference to the captured state and
    /// the given arguments; the result is exactly a result the function
    /// itself could return on that input, and the entity is unchanged and
    /// remains callable.
    pub fn call(&self, p1: P1, p2: P2, p3: P3, p4: P4, p5: P5, p6: P6, p7: P7, p8: P8) -> (r: R)
        requires
            call_requires(self.function, (&self.captured, (p1, p2, p3, p4, p5, p6, p7, p8))),
        ensures
            call_ensures(self.function, (&self.captured, (p1, p2, p3, p4, p5, p6, p7, p8)), r),
    {
        (self.function)(&self.captured, (p1, p2, p3, p4, p5, p6, p7, p8))
    }

    /// Converts the entity into a native callable value that owns the
    /// entity's two fields and performs the same dispatch as `call`: whatever
    /// the entity's function accepts, the callable accepts, and whatever the
    /// callable returns, the entity's function could have returned.
    pub fn to_fn(self) -> (res: impl Fn(P1, P2, P3, P4, P5, P6, P7, P8) -> R)
        ensures
            forall|p1: P1, p2: P2, p3: P3, p4: P4, p5: P5, p6: P6, p7: P7, p8: P8|
                call_requires(self.function, (&self.captured, (p1, p2, p3, p4, p5, p6, p7, p8))) ==> #[trigger] call_requires(
                    res,
                    (p1, p2, p3, p4, p5, p6, p7, p8),
                ),
            forall|p1: P1, p2: P2, p3: P3, p4: P4, p5: P5, p6: P6, p7: P7, p8: P8, r: R|
                #[trigger] call_ensures(res, (p1, p2, p3, p4, p5, p6, p7, p8), r) ==> call_ensures(
                    self.function,
                    (&self.captured, (p1, p2, p3, p4, p5, p6, p7, p8)),
                    r,
                ),
    {
        let Func { captured, function, arity: _ } = self;
        (move |p1: P1, p2: P2, p3: P3, p4: P4, p5: P5, p6: P6, p7: P7, p8: P8| -> (r: R)
            requires
                call_requires(function, (&captured, (p1, p2, p3, p4, p5, p6, p7, p8))),
            ensures
                call_ensures(function, (&captured, (p1, p2, p3, p4, p5, p6, p7, p8)), r),
            { function(&captured, (p1, p2, p3, p4, p5, p6, p7, p8)) })
    }
}

impl<C: Clone, P, R, F: Clone> Clone for Func<C, P, R, F> {
    /// Duplicates the entity field by field: the copy's captured state is a
    /// possible clone of the original's, the function slot likewise, and the
    /// copy is independent of the original thereafter.
    fn clone(&self) -> (res: Self)
        ensures
            cloned(self.captured, res.captured),
            cloned(self.function, res.function),
    {
        Func {
            captured: self.captured.clone(),
            function: self.function.clone(),
            arity: PhantomData,
        }
    }
}

impl<C: Copy, P, R, F: Copy> Copy for Func<C, P, R, F> {

}

impl<C: PartialEq, P, R, F: PartialEq> PartialEq for Func<C, P, R, F> {
    /// Two entities are equal exactly when both the captured states and the
    /// function slots are equal; changing either breaks equality.
    fn eq(&self, other: &Self) -> (r: bool) {
        self.captured == other.captured && self.function == other.function
    }
}

impl<C: PartialEq, P, R, F: PartialEq> vstd::std_specs::cmp::PartialEqSpecImpl for Func<C, P, R, F> {
    open spec fn obeys_eq_spec() -> bool {
        C::obeys_eq_spec() && F::obeys_eq_spec()
    }

    open spec fn eq_spec(&self, other: &Self) -> bool {
        self.captured.eq_spec(&other.captured) && self.function.eq_spec(&other.function)
    }
}

impl<C: Eq, P, R, F: Eq> Eq for Func<C, P, R, F> {

}

/// Law: equality between two entities of this kind holds exactly when both
/// the captured states and the function slots are equal, so a change to
/// either field alone breaks it.
pub proof fn lemma_func_eq_characterization<C: PartialEq, P, R, F: PartialEq>(
    a: &Func<C, P, R, F>,
    b: &Func<C, P, R, F>,
)
    ensures
        a.eq_spec(b) <==> (a.captured.eq_spec(&b.captured) && a.function.eq_spec(&b.function)),
{
}

} // verus!
