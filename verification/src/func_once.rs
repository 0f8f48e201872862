use core::marker::PhantomData;
use vstd::pervasive::cloned;
use vstd::prelude::*;
use vstd::std_specs::cmp::PartialEqSpec;

verus! {

/// The consuming kind: a one-shot callable value. The single call moves the
/// captured state into the function, consuming the entity; a second call on
/// the same binding is rejected by the type system, never at run time. The
/// captured state is carried entirely in `captured`, never inside the
/// function slot.
#[derive(Debug)]
pub struct FuncOnce<C, P, R, F> {
    /// The owned captured-state value; moved into the function by the call.
    pub captured: C,
    /// The non-capturing function that the call dispatches to.
    pub function: F,
    /// Pins the parameter-list and return-type slots that the function slot
    /// serves; carries no data.
    pub arity: PhantomData<(P, R)>,
}

impl<C, R, F: FnOnce(C, ()) -> R> FuncOnce<C, (), R, F> {
    /// Builds the zero-parameter specialization from its captured state and
    /// function; construction is atomic and total.
    pub fn new0(captured: C, function: F) -> (res: Self)
        ensures
            res.captured == captured,
            res.function == function,
    {
        FuncOnce { captured, function, arity: PhantomData }
    }

    /// Invokes the function with the captured state by value and the given
    /// arguments, destroying the entity; the result is exactly a result the
    /// function itself could return on that input. A second call on the same
    /// binding does not compile.
    pub fn call(self) -> (r: R)
        requires
            call_requires(self.function, (self.captured, ())),
        ensures
            call_ensures(self.function, (self.captured, ()), r),
    {
        let FuncOnce { captured, function, arity: _ } = self;
        function(captured, ())
    }

    /// Converts the entity into a single-use native callable that owns the
    /// entity's two fields and performs the same dispatch as `call`; invoking
    /// it consumes it, so a second invocation is rejected by the type system.
    pub fn to_fn_once(self) -> (res: impl FnOnce() -> R)
        ensures
            call_requires(self.function, (self.captured, ())) ==> call_requires(res, ()),
            forall|r: R|
                #[trigger] call_ensures(res, (), r) ==> call_ensures(
                    self.function,
                    (self.captured, ()),
                    r,
                ),
    {
        let FuncOnce { captured, function, arity: _ } = self;
        (move || -> (r: R)
            requires
                call_requires(function, (captured, ())),
            ensures
                call_ensures(function, (captured, ()), r),
            { function(captured, ()) })
    }
}

impl<C, P1, R, F: FnOnce(C, (P1,)) -> R> FuncOnce<C, (P1,), R, F> {
    /// Builds the one-parameter specialization from its captured state and
    /// function; construction is atomic and total.
    pub fn new1(captured: C, function: F) -> (res: Self)
        ensures
            res.captured == captured,
            res.function == function,
    {
        FuncOnce { captured, function, arity: PhantomData }
    }

    /// Invokes the function with the captured state by value and the given
    /// arguments, destroying the entity; the result is exactly a result the
    /// function itself could return on that input. A second call on the same
    /// binding does not compile.
    pub fn call(self, p1: P1) -> (r: R)
        requires
            call_requires(self.function, (self.captured, (p1,))),
        ensures
            call_ensures(self.function, (self.captured, (p1,)), r),
    {
        let FuncOnce { captured, function, arity: _ } = self;
        function(captured, (p1,))
    }

    /// Converts the entity into a single-use native callable that owns the
    /// entity's two fields and performs the same dispatch as `call`; invoking
    /// it consumes it, so a second invocation is rejected by the type system.
    pub fn to_fn_once(self) -> (res: impl FnOnce(P1) -> R)
        ensures
            forall|p1: P1|
                call_requires(self.function, (self.captured, (p1,))) ==> #[trigger] call_requires(
                    res,
                    (p1,),
                ),
            forall|p1: P1, r: R|
                #[trigger] call_ensures(res, (p1,), r) ==> call_ensures(
                    self.function,
                    (self.captured, (p1,)),
                    r,
                ),
    {
        let FuncOnce { captured, function, arity: _ } = self;
        (move |p1: P1| -> (r: R)
            requires
                call_requires(function, (captured, (p1,))),
            ensures
                call_ensures(function, (captured, (p1,)), r),
            { function(captured, (p1,)) })
    }
}

impl<C, P1, P2, R, F: FnOnce(C, (P1, P2)) -> R> FuncOnce<C, (P1, P2), R, F> {
    /// Builds the two-parameter specialization from its captured state and
    /// function; construction is atomic and total.
    pub fn new2(captured: C, function: F) -> (res: Self)
        ensures
            res.captured == captured,
            res.function == function,
    {
        FuncOnce { captured, function, arity: PhantomData }
    }

    /// Invokes the function with the captured state by value and the given
    /// arguments, destroying the entity; the result is exactly a result the
    /// function itself could return on that input. A second call on the same
    /// binding does not compile.
    pub fn call(self, p1: P1, p2: P2) -> (r: R)
        requires
            call_requires(self.function, (self.captured, (p1, p2))),
        ensures
            call_ensures(self.function, (self.captured, (p1, p2)), r),
    {
        let FuncOnce { captured, function, arity: _ } = self;
        function(captured, (p1, p2))
    }

    /// Converts the entity into a single-use native callable that owns the
    /// entity's two fields and performs the same dispatch as `call`; invoking
    /// it consumes it, so a second invocation is rejected by the type system.
    pub fn to_fn_once(self) -> (res: impl FnOnce(P1, P2) -> R)
        ensures
            forall|p1: P1, p2: P2|
                call_requires(self.function, (self.captured, (p1, p2))) ==> #[trigger] call_requires(
                    res,
                    (p1, p2),
                ),
            forall|p1: P1, p2: P2, r: R|
                #[trigger] call_ensures(res, (p1, p2), r) ==> call_ensures(
                    self.function,
                    (self.captured, (p1, p2)),
                    r,
                ),
    {
        let FuncOnce { captured, function, arity: _ } = self;
        (move |p1: P1, p2: P2| -> (r: R)
            requires
                call_requires(function, (captured, (p1, p2))),
            ensures
                call_ensures(function, (captured, (p1, p2)), r),
            { function(captured, (p1, p2)) })
    }
}

impl<C, P1, P2, P3, R, F: FnOnce(C, (P1, P2, P3)) -> R> FuncOnce<C, (P1, P2, P3), R, F> {
    /// Builds the three-parameter specialization from its captured state and
    /// function; construction is atomic and total.
    pub fn new3(captured: C, function: F) -> (res: Self)
        ensures
            res.captured == captured,
            res.function == function,
    {
        FuncOnce { captured, function, arity: PhantomData }
    }

    /// Invokes the function with the captured state by value and the given
    /// arguments, destroying the entity; the result is exactly a result the
    /// function itself could return on that input. A second call on the same
    /// binding does not compile.
    pub fn call(self, p1: P1, p2: P2, p3: P3) -> (r: R)
        requires
            call_requires(self.function, (self.captured, (p1, p2, p3))),
        ensures
            call_ensures(self.function, (self.captured, (p1, p2, p3)), r),
    {
        let FuncOnce { captured, function, arity: _ } = self;
        function(captured, (p1, p2, p3))
    }

    /// Converts the entity into a single-use native callable that owns the
    /// entity's two fields and performs the same dispatch as `call`; invoking
    /// it consumes it, so a second invocation is rejected by the type system.
    pub fn to_fn_once(self) -> (res: impl FnOnce(P1, P2, P3) -> R)
        ensures
            forall|p1: P1, p2: P2, p3: P3|
                call_requires(self.function, (self.captured, (p1, p2, p3))) ==> #[trigger] call_requires(
                    res,
                    (p1, p2, p3),
                ),
            forall|p1: P1, p2: P2, p3: P3, r: R|
                #[trigger] call_ensures(res, (p1, p2, p3), r) ==> call_ensures(
                    self.function,
                    (self.captured, (p1, p2, p3)),
                    r,
                ),
    {
        let FuncOnce { captured, function, arity: _ } = self;
        (move |p1: P1, p2: P2, p3: P3| -> (r: R)
            requires
                call_requires(function, (captured, (p1, p2, p3))),
            ensures
                call_ensures(function, (captured, (p1, p2, p3)), r),
            { function(captured, (p1, p2, p3)) })
    }
}

impl<C, P1, P2, P3, P4, R, F: FnOnce(C, (P1, P2, P3, P4)) -> R> FuncOnce<C, (P1, P2, P3, P4), R, F> {
    /// Builds the four-parameter specialization from its captured state and
    /// function; construction is atomic and total.
    pub fn new4(captured: C, function: F) -> (res: Self)
        ensures
            res.captured == captured,
            res.function == function,
    {
        FuncOnce { captured, function, arity: PhantomData }
    }

    /// Invokes the function with the captured state by value and the given
    /// arguments, destroying the entity; the result is exactly a result the
    /// function itself could return on that input. A second call on the same
    /// binding does not compile.
    pub fn call(self, p1: P1, p2: P2, p3: P3, p4: P4) -> (r: R)
        requires
            call_requires(self.function, (self.captured, (p1, p2, p3, p4))),
        ensures
            call_ensures(self.function, (self.captured, (p1, p2, p3, p4)), r),
    {
        let FuncOnce { captured, function, arity: _ } = self;
        function(captured, (p1, p2, p3, p4))
    }

    /// Converts the entity into a single-use native callable that owns the
    /// entity's two fields and performs the same dispatch as `call`; invoking
    /// it consumes it, so a second invocation is rejected by the type system.
    pub fn to_fn_once(self) -> (res: impl FnOnce(P1, P2, P3, P4) -> R)
        ensures
            forall|p1: P1, p2: P2, p3: P3, p4: P4|
                call_requires(self.function, (self.captured, (p1, p2, p3, p4))) ==> #[trigger] call_requires(
                    res,
                    (p1, p2, p3, p4),
                ),
            forall|p1: P1, p2: P2, p3: P3, p4: P4, r: R|
                #[trigger] call_ensures(res, (p1, p2, p3, p4), r) ==> call_ensures(
                    self.function,
                    (self.captured, (p1, p2, p3, p4)),
                    r,
                ),
    {
        let FuncOnce { captured, function, arity: _ } = self;
        (move |p1: P1, p2: P2, p3: P3, p4: P4| -> (r: R)
            requires
                call_requires(function, (captured, (p1, p2, p3, p4))),
            ensures
                call_ensures(function, (captured, (p1, p2, p3, p4)), r),
            { function(captured, (p1, p2, p3, p4)) })
    }
}

impl<C, P1, P2, P3, P4, P5, R, F: FnOnce(C, (P1, P2, P3, P4, P5)) -> R> FuncOnce<C, (P1, P2, P3, P4, P5), R, F> {
    /// Builds the five-parameter specialization from its captured state and
    /// function; construction is atomic and total.
    pub fn new5(captured: C, function: F) -> (res: Self)
        ensures
            res.captured == captured,
            res.function == function,
    {
        FuncOnce { captured, function, arity: PhantomData }
    }

    /// Invokes the function with the captured state by value and the given
    /// arguments, destroying the entity; the result is exactly a result the
    /// function itself could return on that input. A second call on the same
    /// binding does not compile.
    pub fn call(self, p1: P1, p2: P2, p3: P3, p4: P4, p5: P5) -> (r: R)
        requires
            call_requires(self.function, (self.captured, (p1, p2, p3, p4, p5))),
        ensures
            call_ensures(self.function, (self.captured, (p1, p2, p3, p4, p5)), r),
    {
        let FuncOnce { captured, function, arity: _ } = self;
        function(captured, (p1, p2, p3, p4, p5))
    }

    /// Converts the entity into a single-use native callable that owns the
    /// entity's two fields and performs the same dispatch as `call`; invoking
    /// it consumes it, so a second invocation is rejected by the type system.
    pub fn to_fn_once(self) -> (res: impl FnOnce(P1, P2, P3, P4, P5) -> R)
        ensures
            forall|p1: P1, p2: P2, p3: P3, p4: P4, p5: P5|
                call_requires(self.function, (self.captured, (p1, p2, p3, p4, p5))) ==> #[trigger] call_requires(
                    res,
                    (p1, p2, p3, p4, p5),
                ),
            forall|p1: P1, p2: P2, p3: P3, p4: P4, p5: P5, r: R|
                #[trigger] call_ensures(res, (p1, p2, p3, p4, p5), r) ==> call_ensures(
                    self.function,
                    (self.captured, (p1, p2, p3, p4, p5)),
                    r,
                ),
    {
        let FuncOnce { captured, function, arity: _ } = self;
        (move |p1: P1, p2: P2, p3: P3, p4: P4, p5: P5| -> (r: R)
            requires
                call_requires(function, (captured, (p1, p2, p3, p4, p5))),
            ensures
                call_ensures(function, (captured, (p1, p2, p3, p4, p5)), r),
            { function(captured, (p1, p2, p3, p4, p5)) })
    }
}

impl<C, P1, P2, P3, P4, P5, P6, R, F: FnOnce(C, (P1, P2, P3, P4, P5, P6)) -> R> FuncOnce<C, (P1, P2, P3, P4, P5, P6), R, F> {
    /// Builds the six-parameter specialization from its captured state and
    /// function; construction is atomic and total.
    pub fn new6(captured: C, function: F) -> (res: Self)
        ensures
            res.captured == captured,
            res.function == function,
    {
        FuncOnce { captured, function, arity: PhantomData }
    }

    /// Invokes the function with the captured state by value and the given
    /// arguments, destroying the entity; the result is exactly a result the
    /// function itself could return on that input. A second call on the same
    /// binding does not compile.
    pub fn call(self, p1: P1, p2: P2, p3: P3, p4: P4, p5: P5, p6: P6) -> (r: R)
        requires
            call_requires(self.function, (self.captured, (p1, p2, p3, p4, p5, p6))),
        ensures
            call_ensures(self.function, (self.captured, (p1, p2, p3, p4, p5, p6)), r),
    {
        let FuncOnce { captured, function, arity: _ } = self;
        function(captured, (p1, p2, p3, p4, p5, p6))
    }

    /// Converts the entity into a single-use native callable that owns the
    /// entity's two fields and performs the same dispatch as `call`; invoking
    /// it consumes it, so a second invocation is rejected by the type system.
    pub fn to_fn_once(self) -> (res: impl FnOnce(P1, P2, P3, P4, P5, P6) -> R)
        ensures
            forall|p1: P1, p2: P2, p3: P3, p4: P4, p5: P5, p6: P6|
                call_requires(self.function, (self.captured, (p1, p2, p3, p4, p5, p6))) ==> #[trigger] call_requires(
                    res,
                    (p1, p2, p3, p4, p5, p6),
                ),
            forall|p1: P1, p2: P2, p3: P3, p4: P4, p5: P5, p6: P6, r: R|
                #[trigger] call_ensures(res, (p1, p2, p3, p4, p5, p6), r) ==> call_ensures(
                    self.function,
                    (self.captured, (p1, p2, p3, p4, p5, p6)),
                    r,
                ),
    {
        let FuncOnce { captured, function, arity: _ } = self;
        (move |p1: P1, p2: P2, p3: P3, p4: P4, p5: P5, p6: P6| -> (r: R)
            requires
                call_requires(function, (captured, (p1, p2, p3, p4, p5, p6))),
            ensures
                call_ensures(function, (captured, (p1, p2, p3, p4, p5, p6)), r),
            { function(captured, (p1, p2, p3, p4, p5, p6)) })
    }
}

impl<C, P1, P2, P3, P4, P5, P6, P7, R, F: FnOnce(C, (P1, P2, P3, P4, P5, P6, P7)) -> R> FuncOnce<C, (P1, P2, P3, P4, P5, P6, P7), R, F> {
    /// Builds the seven-parameter specialization from its captured state and
    /// function; construction is atomic and total.
    pub fn new7(captured: C, function: F) -> (res: Self)
        ensures
            res.captured == captured,
            res.function == function,
    {
        FuncOnce { captured, function, arity: PhantomData }
    }

    /// Invokes the function with the captured state by value and the given
    /// arguments, destroying the entity; the result is exactly a result the
    /// function itself could return on that input. A second call on the same
    /// binding does not compile.
    pub fn call(self, p1: P1, p2: P2, p3: P3, p4: P4, p5: P5, p6: P6, p7: P7) -> (r: R)
        requires
            call_requires(self.function, (self.captured, (p1, p2, p3, p4, p5, p6, p7))),
        ensures
            call_ensures(self.function, (self.captured, (p1, p2, p3, p4, p5, p6, p7)), r),
    {
        let FuncOnce { captured, function, arity: _ } = self;
        function(captured, (p1, p2, p3, p4, p5, p6, p7))
    }

    /// Converts the entity into a single-use native callable that owns the
    /// entity's two fields and performs the same dispatch as `call`; invoking
    /// it consumes it, so a second invocation is rejected by the type system.
    pub fn to_fn_once(self) -> (res: impl FnOnce(P1, P2, P3, P4, P5, P6, P7) -> R)
        ensures
            forall|p1: P1, p2: P2, p3: P3, p4: P4, p5: P5, p6: P6, p7: P7|
                call_requires(self.function, (self.captured, (p1, p2, p3, p4, p5, p6, p7))) ==> #[trigger] call_requires(
                    res,
                    (p1, p2, p3, p4, p5, p6, p7),
                ),
            forall|p1: P1, p2: P2, p3: P3, p4: P4, p5: P5, p6: P6, p7: P7, r: R|
                #[trigger] call_ensures(res, (p1, p2, p3, p4, p5, p6, p7), r) ==> call_ensures(
                    self.function,
                    (self.captured, (p1, p2, p3, p4, p5, p6, p7)),
                    r,
                ),
    {
        let FuncOnce { captured, function, arity: _ } = self;
        (move |p1: P1, p2: P2, p3: P3, p4: P4, p5: P5, p6: P6, p7: P7| -> (r: R)
            requires
                call_requires(function, (captured, (p1, p2, p3, p4, p5, p6, p7))),
            ensures
                call_ensures(function, (captured, (p1, p2, p3, p4, p5, p6, p7)), r),
            { function(captured, (p1, p2, p3, p4, p5, p6, p7)) })
    }
}

impl<C, P1, P2, P3, P4, P5, P6, P7, P8, R, F: FnOnce(C, (P1, P2, P3, P4, P5, P6, P7, P8)) -> R> FuncOnce<C, (P1, P2, P3, P4, P5, P6, P7, P8), R, F> {
    /// Builds the eight-parameter specialization from its captured state and
    /// function; construction is atomic and total.
    pub fn new8(captured: C, function: F) -> (res: Self)
        ensures
            res.captured == captured,
            res.function == function,
    {
        FuncOnce { captured, function, arity: PhantomData }
    }

    /// Invokes the function with the captured state by value and the given
    /// arguments, destroying the entity; the result is exactly a result the
    /// function itself could return on that input. A second call on the same
    /// binding does not compile.
    pub fn call(self, p1: P1, p2: P2, p3: P3, p4: P4, p5: P5, p6: P6, p7: P7, p8: P8) -> (r: R)
        requires
            call_requires(self.function, (self.captured, (p1, p2, p3, p4, p5, p6, p7, p8))),
        ensures
            call_ensures(self.function, (self.captured, (p1, p2, p3, p4, p5, p6, p7, p8)), r),
    {
        let FuncOnce { captured, function, arity: _ } = self;
        function(captured, (p1, p2, p3, p4, p5, p6, p7, p8))
    }

    /// Converts the entity into a single-use native callable that owns the
    /// entity's two fields and performs the same dispatch as `call`; invoking
    /// it consumes it, so a second invocation is rejected by the type system.
    pub fn to_fn_once(self) -> (res: impl FnOnce(P1, P2, P3, P4, P5, P6, P7, P8) -> R)
        ensures
            forall|p1: P1, p2: P2, p3: P3, p4: P4, p5: P5, p6: P6, p7: P7, p8: P8|
                call_requires(self.function, (self.captured, (p1, p2, p3, p4, p5, p6, p7, p8))) ==> #[trigger] call_requires(
                    res,
                    (p1, p2, p3, p4, p5, p6, p7, p8),
                ),
            forall|p1: P1, p2: P2, p3: P3, p4: P4, p5: P5, p6: P6, p7: P7, p8: P8, r: R|
                #[trigger] call_ensures(res, (p1, p2, p3, p4, p5, p6, p7, p8), r) ==> call_ensures(
                    self.function,
                    (self.captured, (p1, p2, p3, p4, p5, p6, p7, p8)),
                    r,
                ),
    {
        let FuncOnce { captured, function, arity: _ } = self;
        (move |p1: P1, p2: P2, p3: P3, p4: P4, p5: P5, p6: P6, p7: P7, p8: P8| -> (r: R)
            requires
                call_requires(function, (captured, (p1, p2, p3, p4, p5, p6, p7, p8))),
            ensures
                call_ensures(function, (captured, (p1, p2, p3, p4, p5, p6, p7, p8)), r),
            { function(captured, (p1, p2, p3, p4, p5, p6, p7, p8)) })
    }
}

impl<C: Clone, P, R, F: Clone> Clone for FuncOnce<C, P, R, F> {
    /// Duplicates the entity field by field: the copy's captured state is a
    /// possible clone of the original's, the function slot likewise, and the
    /// copy is independent of the original thereafter.
    fn clone(&self) -> (res: Self)
        ensures
            cloned(self.captured, res.captured),
            cloned(self.function, res.function),
    {
        FuncOnce {
            captured: self.captured.clone(),
            function: self.function.clone(),
            arity: PhantomData,
        }
    }
}

impl<C: Copy, P, R, F: Copy> Copy for FuncOnce<C, P, R, F> {

}

impl<C: PartialEq, P, R, F: PartialEq> PartialEq for FuncOnce<C, P, R, F> {
    /// Two entities are equal exactly when both the captured states and the
    /// function slots are equal; changing either breaks equality.
    fn eq(&self, other: &Self) -> (r: bool) {
        self.captured == other.captured && self.function == other.function
    }
}

impl<C: PartialEq, P, R, F: PartialEq> vstd::std_specs::cmp::PartialEqSpecImpl for FuncOnce<C, P, R, F> {
    open spec fn obeys_eq_spec() -> bool {
        C::obeys_eq_spec() && F::obeys_eq_spec()
    }

    open spec fn eq_spec(&self, other: &Self) -> bool {
        self.captured.eq_spec(&other.captured) && self.function.eq_spec(&other.function)
    }
}

impl<C: Eq, P, R, F: Eq> Eq for FuncOnce<C, P, R, F> {

}

/// Law: equality between two entities of this kind holds exactly when both
/// the captured states and the function slots are equal, so a change to
/// either field alone breaks it.
pub proof fn lemma_func_once_eq_characterization<C: PartialEq, P, R, F: PartialEq>(
    a: &FuncOnce<C, P, R, F>,
    b: &FuncOnce<C, P, R, F>,
)
    ensures
        a.eq_spec(b) <==> (a.captured.eq_spec(&b.captured) && a.function.eq_spec(&b.function)),
{
}

} // verus!
