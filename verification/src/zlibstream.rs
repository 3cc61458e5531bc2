use vstd::prelude::*;

verus! {

/// A stream that is read as it comes, or through an unpacker that holds it.
pub enum ZlibStreamSwitch<P, E> {
    Plain(P),
    Encoded(E),
}

impl<P, E> ZlibStreamSwitch<P, E> {
    /// Puts a plain stream into an unpacker made by `wrap`. A stream that
    /// is unpacked already stays as it is.
    pub fn begin<F: FnOnce(P) -> E>(self, wrap: F) -> (switched: Self)
        requires
            self matches ZlibStreamSwitch::Plain(stream) ==> wrap.requires((stream,)),
        ensures
            self is Encoded ==> switched == self,
            self matches ZlibStreamSwitch::Plain(stream) ==> switched is Encoded && wrap.ensures(
                (stream,),
                switched->Encoded_0,
            ),
    {
        match self {
            ZlibStreamSwitch::Plain(stream) => ZlibStreamSwitch::Encoded(wrap(stream)),
            encoded => encoded,
        }
    }

    /// Takes the stream out of its unpacker by `unwrap`. A plain stream
    /// stays as it is.
    pub fn end<F: FnOnce(E) -> P>(self, unwrap: F) -> (switched: Self)
        requires
            self matches ZlibStreamSwitch::Encoded(unpacker) ==> unwrap.requires((unpacker,)),
        ensures
            self is Plain ==> switched == self,
            self matches ZlibStreamSwitch::Encoded(unpacker) ==> switched is Plain
                && unwrap.ensures((unpacker,), switched->Plain_0),
    {
        match self {
            ZlibStreamSwitch::Encoded(unpacker) => ZlibStreamSwitch::Plain(unwrap(unpacker)),
            plain => plain,
        }
    }
}

} // verus!
