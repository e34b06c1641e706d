//! Program images: the bytes of a program as they are handed to a machine.

use vstd::prelude::*;

verus! {

/// The byte that ends a line.
pub const NEWLINE: u8 = 0x0a;

/// `source` with every newline byte taken out, the other bytes in order.
pub open spec fn without_newlines(source: Seq<u8>) -> Seq<u8> {
    source.filter(|byte: u8| byte != NEWLINE)
}

/// The bytes of the image made of `source`.
pub open spec fn normalized(source: Seq<u8>, ignore_newlines: bool) -> Seq<u8> {
    if ignore_newlines {
        without_newlines(source)
    } else {
        source
    }
}

/// What a program image is, as mathematical values.
pub struct ProgramView {
    pub name: Seq<char>,
    pub bytes: Seq<u8>,
}

/// A named program, ready to be copied into a machine.
#[derive(Clone, Debug, PartialEq, Eq)]
pub struct ProgramImage {
    name: String,
    bytes: Vec<u8>,
}

impl View for ProgramImage {
    type V = ProgramView;

    closed spec fn view(&self) -> ProgramView {
        ProgramView { name: self.name@, bytes: self.bytes@ }
    }
}

impl ProgramImage {
    /// Makes the image called `name` of the bytes read from a source. With
    /// `ignore_newlines` the newline bytes are dropped; without it every byte
    /// is kept as it is.
    pub fn new(name: String, source: &Vec<u8>, ignore_newlines: bool) -> (image: ProgramImage)
        ensures
            image@.name == name@,
            image@.bytes == normalized(source@, ignore_newlines),
    {
        let mut bytes: Vec<u8> = Vec::new();
        let mut i: usize = 0;
        while i < source.len()
            invariant
                i <= source@.len(),
                bytes@ == normalized(source@.take(i as int), ignore_newlines),
            decreases source@.len() - i,
        {
            let byte = source[i];
            proof {
                let longer = source@.take(i + 1);
                assert(longer.drop_last() == source@.take(i as int));
                assert(longer.last() == byte);
                reveal(Seq::filter);
                assert(longer == source@.take(i as int).push(byte));
            }
            if !ignore_newlines || byte != NEWLINE {
                bytes.push(byte);
            }
            i = i + 1;
        }
        proof {
            assert(source@.take(source@.len() as int) == source@);
        }
        ProgramImage { name, bytes }
    }

    /// The name under which a session records the program.
    pub fn name(&self) -> (name: &String)
        ensures
            name@ == self@.name,
    {
        &self.name
    }

    /// The bytes that are copied into a machine.
    pub fn memory(&self) -> (bytes: &Vec<u8>)
        ensures
            bytes@ == self@.bytes,
    {
        &self.bytes
    }
}

} // verus!
