//! A model manages the data storage and interacts with the database: the values stored,
//! and the decisions around reading records.

use vstd::prelude::*;

use crate::env::{env_var_opt, EnvVar};
use crate::error::{Error, ModelError};

verus! {

/// The URL of the database, from the `DATABASE_URL` environment variable, if it is set.
pub fn database_url(var: EnvVar) -> (r: Option<String>)
    requires
        !(var is NotUnicode),
    ensures
        match var {
            EnvVar::Present(s) => r == Some(s),
            _ => r is None,
        },
{
    env_var_opt(var)
}

/// The order of a sorted query, ascending unless asked otherwise.
#[derive(PartialEq, Eq, Structural, Clone, Copy, Debug)]
pub enum Sort {
    Ascending,
    Descending,
}

impl Default for Sort {
    fn default() -> (r: Sort)
        ensures
            r == Sort::Ascending,
    {
        Sort::Ascending
    }
}

/// Decode from the value stored in the database.
pub trait Decode: Sized {
    type Decode;

    fn decode(decode: Self::Decode) -> Self;
}

/// Encode into the value stored in the database.
pub trait Encode: Sized {
    type Encode;

    fn encode(self) -> Self::Encode;
}

/// The `bool` that MySQL stores as an `i8`: zero is false, any other value is true.
pub open spec fn spec_decode_bool(stored: i8) -> bool {
    stored != 0
}

/// The `i8` that MySQL stores for a `bool`: one for true, zero for false.
pub open spec fn spec_encode_bool(b: bool) -> i8 {
    if b {
        1
    } else {
        0
    }
}

impl Decode for bool {
    type Decode = i8;

    fn decode(decode: i8) -> (r: bool)
        ensures
            r == spec_decode_bool(decode),
    {
        decode != 0
    }
}

impl Encode for bool {
    type Encode = i8;

    fn encode(self) -> (r: i8)
        ensures
            r == spec_encode_bool(self),
    {
        if self {
            1
        } else {
            0
        }
    }
}

impl Decode for String {
    type Decode = String;

    fn decode(decode: String) -> (r: String)
        ensures
            r == decode,
    {
        decode
    }
}

impl Encode for String {
    type Encode = String;

    fn encode(self) -> (r: String)
        ensures
            r == self,
    {
        self
    }
}

impl Decode for u64 {
    type Decode = u64;

    fn decode(decode: u64) -> (r: u64)
        ensures
            r == decode,
    {
        decode
    }
}

impl Encode for u64 {
    type Encode = u64;

    fn encode(self) -> (r: u64)
        ensures
            r == self,
    {
        self
    }
}

impl Decode for i64 {
    type Decode = i64;

    fn decode(decode: i64) -> (r: i64)
        ensures
            r == decode,
    {
        decode
    }
}

impl Encode for i64 {
    type Encode = i64;

    fn encode(self) -> (r: i64)
        ensures
            r == self,
    {
        self
    }
}

impl Decode for u32 {
    type Decode = u32;

    fn decode(decode: u32) -> (r: u32)
        ensures
            r == decode,
    {
        decode
    }
}

impl Encode for u32 {
    type Encode = u32;

    fn encode(self) -> (r: u32)
        ensures
            r == self,
    {
        self
    }
}

impl Decode for i32 {
    type Decode = i32;

    fn decode(decode: i32) -> (r: i32)
        ensures
            r == decode,
    {
        decode
    }
}

impl Encode for i32 {
    type Encode = i32;

    fn encode(self) -> (r: i32)
        ensures
            r == self,
    {
        self
    }
}

impl Decode for u16 {
    type Decode = u16;

    fn decode(decode: u16) -> (r: u16)
        ensures
            r == decode,
    {
        decode
    }
}

impl Encode for u16 {
    type Encode = u16;

    fn encode(self) -> (r: u16)
        ensures
            r == self,
    {
        self
    }
}

impl Decode for i16 {
    type Decode = i16;

    fn decode(decode: i16) -> (r: i16)
        ensures
            r == decode,
    {
        decode
    }
}

impl Encode for i16 {
    type Encode = i16;

    fn encode(self) -> (r: i16)
        ensures
            r == self,
    {
        self
    }
}

impl Decode for u8 {
    type Decode = u8;

    fn decode(decode: u8) -> (r: u8)
        ensures
            r == decode,
    {
        decode
    }
}

impl Encode for u8 {
    type Encode = u8;

    fn encode(self) -> (r: u8)
        ensures
            r == self,
    {
        self
    }
}

impl Decode for i8 {
    type Decode = i8;

    fn decode(decode: i8) -> (r: i8)
        ensures
            r == decode,
    {
        decode
    }
}

impl Encode for i8 {
    type Encode = i8;

    fn encode(self) -> (r: i8)
        ensures
            r == self,
    {
        self
    }
}

/// Decoding what encoding a `bool` stored gives the `bool` back.
pub proof fn law_bool_decode_encode(b: bool)
    ensures
        spec_decode_bool(spec_encode_bool(b)) == b,
{
}

/// What a write that returns the record does next, once the write is done: on an error it
/// stops with that error, otherwise it reads the record with the same identifier.
pub enum WriteThenRead<U> {
    Read,
    Stop(ModelError<U>),
}

/// The step after the write of a write that returns the record: stop with the write's error,
/// or read the record.
pub fn after_write<U>(written: Result<(), ModelError<U>>) -> (r: WriteThenRead<U>)
    ensures
        match written {
            Ok(()) => r is Read,
            Err(e) => r == WriteThenRead::Stop(e),
        },
{
    match written {
        Ok(()) => WriteThenRead::Read,
        Err(e) => WriteThenRead::Stop(e),
    }
}

/// The result of a write that returns the record, from the read after it: the record, or
/// the read's error as another error of the controller.
pub fn after_read<R, U>(read: Result<R, Error>) -> (r: Result<R, ModelError<U>>)
    ensures
        match read {
            Ok(record) => r == Ok::<R, ModelError<U>>(record),
            Err(e) => r == Err::<R, ModelError<U>>(ModelError::Other(e)),
        },
{
    match read {
        Ok(record) => Ok(record),
        Err(e) => Err(ModelError::Other(e)),
    }
}

/// The result of aggregating one record, as an option: the record when it was found,
/// none when it was not, and any other error as it is.
pub fn aggregate_option<T>(result: Result<T, Error>) -> (r: Result<Option<T>, Error>)
    ensures
        match result {
            Ok(t) => r == Ok::<Option<T>, Error>(Some(t)),
            Err(Error::NotFound) => r == Ok::<Option<T>, Error>(None),
            Err(e) => r == Err::<Option<T>, Error>(e),
        },
{
    match result {
        Ok(t) => Ok(Some(t)),
        Err(Error::NotFound) => Ok(None),
        Err(e) => Err(e),
    }
}

/// The result of aggregating one record, as a vector of zero or one records.
pub fn aggregate_one_vec<T>(result: Result<T, Error>) -> (r: Result<Vec<T>, Error>)
    ensures
        match result {
            Ok(t) => r matches Ok(v) && v@ == seq![t],
            Err(Error::NotFound) => r matches Ok(v) && v@.len() == 0,
            Err(e) => r == Err::<Vec<T>, Error>(e),
        },
{
    match aggregate_option(result) {
        Ok(Some(t)) => {
            let mut v: Vec<T> = Vec::new();
            v.push(t);
            assert(v@ =~= seq![t]);
            Ok(v)
        },
        Ok(None) => Ok(Vec::new()),
        Err(e) => Err(e),
    }
}

} // verus!
