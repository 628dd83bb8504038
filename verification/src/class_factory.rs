use vstd::prelude::*;

verus! {

/// Why the class factory refuses to create a text service.
#[derive(PartialEq, Eq, Structural, Clone, Copy, Debug)]
pub enum CreateInstanceError {
    /// Aggregation was asked for (CLASS_E_NOAGGREGATION).
    NoAggregation,
    /// An interface other than the text input processor was asked for
    /// (E_NOINTERFACE).
    NoInterface,
}

/// The COM class factory of the text service.
#[derive(PartialEq, Eq, Structural, Clone, Copy, Debug)]
pub struct KhiinClassFactory;

impl KhiinClassFactory {
    pub fn new() -> (r: Self)
        ensures
            r == KhiinClassFactory,
    {
        KhiinClassFactory
    }

    /// Whether an instance may be created: not as part of an aggregate, and
    /// only as a text input processor.
    pub fn create_instance_check(&self, has_outer: bool, riid_is_text_input_processor: bool) -> (r:
        Result<(), CreateInstanceError>)
        ensures
            has_outer ==> r == Err::<(), CreateInstanceError>(CreateInstanceError::NoAggregation),
            !has_outer && !riid_is_text_input_processor ==> r == Err::<(), CreateInstanceError>(
                CreateInstanceError::NoInterface,
            ),
            !has_outer && riid_is_text_input_processor ==> r is Ok,
    {
        if has_outer {
            return Err(CreateInstanceError::NoAggregation);
        }
        if !riid_is_text_input_processor {
            return Err(CreateInstanceError::NoInterface);
        }
        Ok(())
    }
}

} // verus!
