use vstd::prelude::*;

verus! {

/// Everything that can go wrong on the channel, one variant per stage:
/// binding a listener, connecting to a bound path, moving bytes on an
/// established connection (including a mid-frame close by the peer),
/// encoding a value, and decoding received payload bytes.
#[derive(Clone, Copy, Debug, PartialEq, Eq, Structural)]
pub enum Error {
    Bind,
    Connect,
    Transport,
    Encode,
    Decode,
}

impl Error {
    /// A short human-readable account of the error.
    pub fn describe(&self) -> (r: &'static str)
        ensures
            *self is Bind ==> r@ == "could not bind the listener path"@,
            *self is Connect ==> r@ == "no listener at the path"@,
            *self is Transport ==> r@ == "the connection failed mid-frame"@,
            *self is Encode ==> r@ == "the value could not be encoded"@,
            *self is Decode ==> r@ == "the payload bytes could not be decoded"@,
    {
        match self {
            Error::Bind => "could not bind the listener path",
            Error::Connect => "no listener at the path",
            Error::Transport => "the connection failed mid-frame",
            Error::Encode => "the value could not be encoded",
            Error::Decode => "the payload bytes could not be decoded",
        }
    }
}

} // verus!
