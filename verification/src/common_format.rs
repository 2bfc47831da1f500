use vstd::prelude::*;

verus! {

/// Whether a service is offered on board, as the transit formats write it.
#[derive(Clone, Copy, Debug, PartialEq, Eq, Structural)]
pub enum Availability {
    InformationNotAvailable,
    Available,
    NotAvailable,
}

impl Availability {
    /// The number that stands for the availability in the transit files.
    pub fn code(&self) -> (r: u8)
        ensures
            r == match *self {
                Availability::InformationNotAvailable => 0u8,
                Availability::Available => 1u8,
                Availability::NotAvailable => 2u8,
            },
    {
        match self {
            Availability::InformationNotAvailable => 0,
            Availability::Available => 1,
            Availability::NotAvailable => 2,
        }
    }
}

impl Default for Availability {
    fn default() -> (r: Self)
        ensures
            r == Availability::InformationNotAvailable,
    {
        Availability::InformationNotAvailable
    }
}

} // verus!
