//! Messages, raw messages and the unmarshaller that tells them apart.

use vstd::prelude::*;
use vstd::slice::{slice_subrange, slice_to_vec};
use std::collections::BTreeSet;
use crate::presentation::tlv::Stream;

verus! {

broadcast use vstd::std_specs::btree::group_btree_axioms;

/// Message type field value.
#[derive(Clone, Copy, PartialEq, Eq, PartialOrd, Ord, Hash, Debug)]
pub struct Type(pub u16);

impl Type {
    /// Whether the type is even: a receiver that does not know an even type
    /// must refuse the message.
    pub fn is_even(&self) -> (even: bool)
        ensures
            even == (self.0 % 2 == 0),
    {
        self.0 % 2 == 0
    }

    /// Whether the type is odd: a receiver that does not know an odd type
    /// may keep the message as raw bytes.
    pub fn is_odd(&self) -> (odd: bool)
        ensures
            odd == (self.0 % 2 == 1),
    {
        self.0 % 2 == 1
    }
}

/// Errors of unmarshalling.
#[derive(Clone, Copy, PartialEq, Eq, Hash, Debug)]
pub enum Error {
    /// The data ends before the type identifier does.
    NoData,
    /// The type is even and not known.
    MessageEvenType,
}

/// The fields of a message's payload, each as its bytes.
pub struct Payload(pub Vec<Vec<u8>>);

impl From<u16> for Type {
    fn from(value: u16) -> (type_id: Type) {
        Type(value)
    }
}

impl vstd::std_specs::convert::FromSpecImpl<u16> for Type {
    open spec fn obeys_from_spec() -> bool {
        true
    }

    open spec fn from_spec(value: u16) -> Type {
        Type(value)
    }
}

impl From<Type> for u16 {
    fn from(type_id: Type) -> (value: u16) {
        type_id.0
    }
}

impl vstd::std_specs::convert::FromSpecImpl<Type> for u16 {
    open spec fn obeys_from_spec() -> bool {
        true
    }

    open spec fn from_spec(type_id: Type) -> u16 {
        type_id.0
    }
}

/// A typed message.
pub trait Message {
    /// The type of the message, as contracts speak of it.
    spec fn type_of(&self) -> Type;

    /// The type of the message.
    fn get_type(&self) -> (type_id: Type)
        ensures
            type_id == self.type_of(),
    ;

    /// The type of the message, converted into `T`.
    fn to_type<T>(&self) -> (converted: T) where Self: Sized, Type: Into<T>
        ensures
            call_ensures(<Type as Into<T>>::into, (self.type_of(),), converted),
    {
        self.get_type().into()
    }

    /// The type of the message, converted into `T` where it can be.
    fn try_to_type<T>(&self) -> (converted: Result<T, <Type as TryInto<T>>::Error>) where
        Self: Sized,
        Type: TryInto<T>,

        ensures
            call_ensures(<Type as TryInto<T>>::try_into, (self.type_of(),), converted),
    {
        self.get_type().try_into()
    }

    /// The payload of the message.
    fn get_payload(&self) -> Payload;

    /// The side records of the message.
    fn get_tlvs(&self) -> Stream;
}

/// A message of a type that is not known, kept as the bytes it came in.
#[derive(Clone, PartialEq, Eq, Hash, Debug)]
pub struct RawMessage {
    pub type_id: Type,
    pub payload: Vec<u8>,
}

impl Message for RawMessage {
    open spec fn type_of(&self) -> Type {
        self.type_id
    }

    fn get_type(&self) -> (type_id: Type) {
        self.type_id
    }

    fn get_payload(&self) -> (payload: Payload)
        ensures
            payload.0@.len() == 1,
            payload.0@[0]@ == self.payload@,
    {
        let mut fields: Vec<Vec<u8>> = Vec::new();
        fields.push(slice_to_vec(self.payload.as_slice()));
        Payload(fields)
    }

    fn get_tlvs(&self) -> (stream: Stream)
        ensures
            stream.records@.len() == 0,
    {
        Stream::new()
    }
}

/// What unmarshalling a frame gives.
#[derive(Clone, PartialEq, Eq, Hash, Debug)]
pub enum Unmarshalled {
    /// A message of an unknown odd type, with the bytes after the type.
    Raw(RawMessage),
    /// A message of a known type: the bytes after the type are for the parser
    /// of that type.
    Known { type_id: Type, body: Vec<u8> },
}

/// The type identifier at the start of a frame: its first two bytes, the low
/// byte first. A frame of fewer than two bytes has none.
pub open spec fn frame_type(data: Seq<u8>) -> Option<u16> {
    if data.len() < 2 {
        None
    } else {
        Some((data[0] + 256 * data[1]) as u16)
    }
}

/// Holds when `outcome` is what a frame unmarshalls to, given the set of
/// known types. For each frame exactly one kind of outcome satisfies it.
pub open spec fn unmarshalls_to(
    known: Set<u16>,
    data: Seq<u8>,
    outcome: Result<Unmarshalled, Error>,
) -> bool {
    match outcome {
        Err(Error::NoData) => frame_type(data) is None,
        Err(Error::MessageEvenType) => frame_type(data) matches Some(t) && !known.contains(t) && t
            % 2 == 0,
        Ok(Unmarshalled::Raw(message)) => frame_type(data) matches Some(t) && !known.contains(t)
            && t % 2 == 1 && message.type_id == Type(t) && message.payload@ == data.skip(2),
        Ok(Unmarshalled::Known { type_id, body }) => frame_type(data) matches Some(t)
            && known.contains(t) && type_id == Type(t) && body@ == data.skip(2),
    }
}

/// Reads the type identifier at the start of a frame.
pub fn read_type(data: &[u8]) -> (outcome: Result<Type, Error>)
    ensures
        outcome == match frame_type(data@) {
            Some(t) => Ok::<Type, Error>(Type(t)),
            None => Err::<Type, Error>(Error::NoData),
        },
{
    if data.len() < 2 {
        return Err(Error::NoData);
    }
    let low: u16 = data[0] as u16;
    let high: u16 = data[1] as u16;
    Ok(Type(low + 256 * high))
}

/// Tells messages apart by their type identifier.
pub struct Unmarshaller {
    known_types: BTreeSet<u16>,
}

impl Unmarshaller {
    /// The types that have a parser.
    pub closed spec fn known(&self) -> Set<u16> {
        self.known_types@
    }

    /// An unmarshaller that knows no type.
    pub fn new() -> (unmarshaller: Unmarshaller)
        ensures
            unmarshaller.known() == Set::<u16>::empty(),
    {
        Unmarshaller { known_types: BTreeSet::new() }
    }

    /// Makes a type known.
    pub fn register(&mut self, type_id: Type)
        ensures
            final(self).known() == old(self).known().insert(type_id.0),
    {
        let _ = self.known_types.insert(type_id.0);
    }

    /// Splits a frame into its type and the bytes after it, and decides by
    /// the type what the frame is: a known type is handed on for parsing, an
    /// unknown odd type is kept as a raw message, an unknown even type is an
    /// error.
    pub fn unmarshall(&self, data: &[u8]) -> (outcome: Result<Unmarshalled, Error>)
        ensures
            unmarshalls_to(self.known(), data@, outcome),
    {
        let type_id = match read_type(data) {
            Ok(type_id) => type_id,
            Err(error) => {
                return Err(error);
            },
        };
        let rest = slice_to_vec(slice_subrange(data, 2, data.len()));
        proof {
            assert(rest@ =~= data@.skip(2));
        }
        if self.known_types.contains(&type_id.0) {
            Ok(Unmarshalled::Known { type_id, body: rest })
        } else if type_id.is_even() {
            Err(Error::MessageEvenType)
        } else {
            Ok(Unmarshalled::Raw(RawMessage { type_id, payload: rest }))
        }
    }
}

} // verus!
