use vstd::prelude::*;

verus! {

/// The error of every fallible operation of this crate: a failure that
/// ZeroMQ reported.
#[derive(Debug)]
pub enum TmqError {
    Zmq(zmq::Error),
}

/// The `Result` of this crate.
pub type Result<T> = std::result::Result<T, TmqError>;

/// A `zmq` result with its error turned into this crate's.
pub open spec fn from_zmq<T>(o: std::result::Result<T, zmq::Error>) -> Result<T> {
    match o {
        Ok(v) => Ok(v),
        Err(e) => Err(TmqError::Zmq(e)),
    }
}

impl std::convert::From<zmq::Error> for TmqError {
    fn from(e: zmq::Error) -> (r: Self) {
        TmqError::Zmq(e)
    }
}

impl vstd::std_specs::convert::FromSpecImpl<zmq::Error> for TmqError {
    open spec fn obeys_from_spec() -> bool {
        true
    }

    open spec fn from_spec(e: zmq::Error) -> Self {
        TmqError::Zmq(e)
    }
}

} // verus!
