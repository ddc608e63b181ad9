use vstd::prelude::*;

verus! {

/// The unit of work of the framework: a request is answered in a context,
/// with a response or an error. A service can be wrapped by another that
/// runs before and after it. A call runs to its end; a caller that must not
/// wait for it runs it as a task of its own.
pub trait Service<Cx, Request> {
    /// What the service answers with.
    type Response;

    /// What the service fails with.
    type Error;

    /// Whether the service may answer `request` in the context `cx` with
    /// `outcome`, leaving the context as `after`. A service that does not
    /// say what it answers may answer anything.
    open spec fn answers(
        &self,
        cx: Cx,
        request: Request,
        after: Cx,
        outcome: Result<Self::Response, Self::Error>,
    ) -> bool {
        true
    }

    /// Answers `request` in the context `cx`.
    fn call(&self, cx: &mut Cx, request: Request) -> (outcome: Result<Self::Response, Self::Error>)
        ensures
            self.answers(*old(cx), request, *final(cx), outcome),
    ;
}

} // verus!
