//! The handles that the captured process held open.
#![allow(non_snake_case)]

use crate::data::{MINIDUMP_HANDLE_DATA_STREAM, MINIDUMP_HANDLE_DESCRIPTOR};
use crate::error::UserDmpError;
use crate::stream::{
    agrees, keyed, lemma_keyed_ends, lemma_keyed_holds, lemma_keyed_step, lemma_keyed_stops,
    lemma_views_empty,
    lemma_views_insert, views, MinidumpStream,
};
use crate::text::{resolve_string, string_at};
use std::collections::BTreeMap;
use vstd::prelude::*;

verus! {

/// Represents the handles in a minidump file, mapped by their handle values.
pub type Handles = BTreeMap<u64, Handle>;

/// Represents a handle in a minidump file, providing metadata about its type,
/// object name, attributes, and granted access rights.
#[derive(Default, Debug, Clone, PartialEq, Eq)]
pub struct Handle {
    /// The unique identifier (handle value) for this object.
    pub handle: u64,
    /// The name of the type of the object that the handle refers to.
    object_type_name: Option<String>,
    /// The name of the object that the handle refers to, if it has one.
    object_name: Option<String>,
    /// The attributes of the handle.
    pub attributes: u32,
    /// The access rights granted to this handle.
    pub granted_access: u32,
}

/// What a `Handle` holds, as plain values.
pub ghost struct HandleView {
    pub handle: u64,
    pub object_type_name: Option<Seq<char>>,
    pub object_name: Option<Seq<char>>,
    pub attributes: u32,
    pub granted_access: u32,
}

/// The text of a string that may be absent.
pub open spec fn text_of(s: Option<String>) -> Option<Seq<char>> {
    match s {
        Some(s) => Some(s@),
        None => None,
    }
}

/// The digit that stands for `d` in lower-case hexadecimal notation.
pub open spec fn hex_digit(d: int) -> char {
    if d < 10 {
        ('0' as int + d) as char
    } else {
        ('a' as int + d - 10) as char
    }
}

/// The lower-case hexadecimal notation of `n`, without leading zeros.
pub open spec fn hex_digits(n: nat) -> Seq<char>
    decreases n,
{
    if n < 16 {
        seq![hex_digit(n as int)]
    } else {
        hex_digits(n / 16).push(hex_digit((n % 16) as int))
    }
}

/// Formats `value` with the standard library's `format!`, as `0x` and its
/// lower-case hexadecimal digits. The contract claims what the documentation of
/// the `{:x}` format says of an unsigned integer.
#[verifier::external_body]
fn hex_text(value: u64) -> (text: String)
    ensures
        text@ == seq!['0', 'x'] + hex_digits(value as nat),
{
    format!("0x{:x}", value)
}

impl View for Handle {
    type V = HandleView;

    closed spec fn view(&self) -> HandleView {
        HandleView {
            handle: self.handle,
            object_type_name: text_of(self.object_type_name),
            object_name: text_of(self.object_name),
            attributes: self.attributes,
            granted_access: self.granted_access,
        }
    }
}

impl Handle {
    /// The handle that `descriptor` describes, with the two names given.
    pub open spec fn of_descriptor(
        object_type_name: Option<Seq<char>>,
        object_name: Option<Seq<char>>,
        descriptor: MINIDUMP_HANDLE_DESCRIPTOR,
    ) -> HandleView {
        HandleView {
            handle: descriptor.Handle,
            object_type_name,
            object_name,
            attributes: descriptor.Attributes,
            granted_access: descriptor.GrantedAccess,
        }
    }

    /// The name that the offset `rva` stands for: none when it is zero, else the
    /// string that lies there.
    pub open spec fn name_at(bytes: Seq<u8>, rva: u32) -> Result<Option<Seq<char>>, UserDmpError> {
        if rva == 0 {
            Ok(None)
        } else {
            match string_at(bytes, rva as int) {
                Err(e) => Err(e),
                Ok(name) => Ok(Some(name)),
            }
        }
    }

    /// What one descriptor of the handle data stream gives: the handle value as
    /// the key, and the handle. The type name is resolved first, then the
    /// object name.
    pub open spec fn entry(bytes: Seq<u8>, descriptor: MINIDUMP_HANDLE_DESCRIPTOR) -> Result<
        (u64, HandleView),
        UserDmpError,
    > {
        match Self::name_at(bytes, descriptor.TypeNameRva) {
            Err(e) => Err(e),
            Ok(object_type_name) => match Self::name_at(bytes, descriptor.ObjectNameRva) {
                Err(e) => Err(e),
                Ok(object_name) => Ok(
                    (
                        descriptor.Handle,
                        Self::of_descriptor(object_type_name, object_name, descriptor),
                    ),
                ),
            },
        }
    }

    /// The entries of the handle data stream whose descriptors are `list`.
    pub open spec fn entries(bytes: Seq<u8>, list: Seq<MINIDUMP_HANDLE_DESCRIPTOR>) -> Seq<
        Result<(u64, HandleView), UserDmpError>,
    > {
        Seq::new(list.len(), |i: int| Self::entry(bytes, list[i]))
    }

    /// What the handle data stream at `at` of `bytes` decodes to: the handles by
    /// their value. An error when the stream does not lie inside the buffer or
    /// declares its descriptors smaller than their fixed fields, and the error
    /// of the first handle that fails.
    pub open spec fn stream_at(bytes: Seq<u8>, at: int) -> Result<
        Map<u64, HandleView>,
        UserDmpError,
    > {
        if !MINIDUMP_HANDLE_DATA_STREAM::present(bytes, at) {
            Err(UserDmpError::MalformedRecord(at as u64))
        } else {
            keyed(Self::entries(bytes, MINIDUMP_HANDLE_DATA_STREAM::handles_at(bytes, at)))
        }
    }

    /// Whether every handle of `handles` stands under its value.
    pub open spec fn keyed_by_value(handles: Map<u64, HandleView>) -> bool {
        forall|value: u64|
            handles.contains_key(value) ==> (#[trigger] handles[value]).handle == value
    }

    /// The handles of a handle data stream that decodes stand under their
    /// values.
    pub proof fn lemma_handles_keyed_by_value(bytes: Seq<u8>, at: int)
        ensures
            Self::stream_at(bytes, at) matches Ok(handles) ==> Self::keyed_by_value(handles),
    {
        lemma_keyed_holds(
            Self::entries(bytes, MINIDUMP_HANDLE_DATA_STREAM::handles_at(bytes, at)),
            |value: u64, handle: HandleView| handle.handle == value,
        );
    }

    /// A descriptor whose type name offset is zero gives a handle without a
    /// type name, where it gives a handle at all.
    pub proof fn lemma_no_type_name(bytes: Seq<u8>, descriptor: MINIDUMP_HANDLE_DESCRIPTOR)
        requires
            descriptor.TypeNameRva == 0,
        ensures
            Self::name_at(bytes, descriptor.TypeNameRva) == Ok::<
                Option<Seq<char>>,
                UserDmpError,
            >(None),
            Self::entry(bytes, descriptor) matches Ok(entry) ==> entry.1.object_type_name
                is None,
    {
    }

    /// Creates a new `Handle` from a `MINIDUMP_HANDLE_DESCRIPTOR` and its names.
    pub fn new(
        object_type_name: Option<String>,
        object_name: Option<String>,
        handle: &MINIDUMP_HANDLE_DESCRIPTOR,
    ) -> (r: Self)
        ensures
            r@ == Self::of_descriptor(text_of(object_type_name), text_of(object_name), *handle),
    {
        Handle {
            handle: handle.Handle,
            object_type_name,
            object_name,
            attributes: handle.Attributes,
            granted_access: handle.GrantedAccess,
        }
    }

    /// Returns the handle value.
    pub fn value(&self) -> (r: u64)
        ensures
            r == self@.handle,
    {
        self.handle
    }

    /// Returns the attributes of the handle.
    pub fn attributes(&self) -> (r: u32)
        ensures
            r == self@.attributes,
    {
        self.attributes
    }

    /// Returns the access rights granted to the handle.
    pub fn granted_access(&self) -> (r: u32)
        ensures
            r == self@.granted_access,
    {
        self.granted_access
    }

    /// Returns the handle value as a hexadecimal string.
    pub fn handle(&self) -> (r: String)
        ensures
            r@ == seq!['0', 'x'] + hex_digits(self@.handle as nat),
    {
        hex_text(self.handle)
    }

    /// Returns the name of the type of the object associated with the handle,
    /// or `None` if the dump holds none.
    pub fn object_type_name(&self) -> (r: Option<&str>)
        ensures
            match r {
                Some(name) => self@.object_type_name == Some(name@),
                None => self@.object_type_name is None,
            },
    {
        match &self.object_type_name {
            Some(name) => Some(name.as_str()),
            None => None,
        }
    }

    /// Returns the object name associated with the handle, or `None` if the
    /// dump holds none.
    pub fn object_name(&self) -> (r: Option<&str>)
        ensures
            match r {
                Some(name) => self@.object_name == Some(name@),
                None => self@.object_name is None,
            },
    {
        match &self.object_name {
            Some(name) => Some(name.as_str()),
            None => None,
        }
    }

    /// Resolves the name that the offset `rva` stands for.
    pub fn resolve_name(buffer: &[u8], rva: u32) -> (r: Result<Option<String>, UserDmpError>)
        ensures
            match r {
                Ok(name) => Self::name_at(buffer@, rva) == Ok::<Option<Seq<char>>, UserDmpError>(
                    text_of(name),
                ),
                Err(e) => Self::name_at(buffer@, rva) == Err::<Option<Seq<char>>, UserDmpError>(e),
            },
    {
        if rva != 0 {
            Ok(Some(resolve_string(buffer, rva)?))
        } else {
            Ok(None)
        }
    }
}

impl<'a> MinidumpStream<'a> for Handle {
    type Output = Handles;

    open spec fn decodes(bytes: Seq<u8>, at: int, out: Result<Handles, UserDmpError>) -> bool {
        agrees(out, Handle::stream_at(bytes, at))
    }

    /// Parses the list of handles from the handle data stream.
    fn parse(buffer: &'a [u8], rva: u32) -> (r: Result<Handles, UserDmpError>) {
        let stream = MINIDUMP_HANDLE_DATA_STREAM::read(buffer, rva as usize)?;
        let ghost items = Handle::entries(buffer@, stream.Handles@);
        let mut handles: Handles = BTreeMap::new();
        let mut i: usize = 0;
        proof {
            lemma_views_empty::<u64, Handle>();
        }
        while i < stream.Handles.len()
            invariant
                i <= stream.Handles.len(),
                items == Handle::entries(buffer@, stream.Handles@),
                Handle::stream_at(buffer@, rva as int) == keyed(items),
                keyed(items.take(i as int)) == Ok::<Map<u64, HandleView>, UserDmpError>(
                    views(handles@),
                ),
            decreases stream.Handles.len() - i,
        {
            let descriptor = &stream.Handles[i];
            proof {
                lemma_keyed_step(items, i as int);
                if items[i as int] is Err {
                    lemma_keyed_stops(items, i + 1);
                }
            }
            let object_type_name = Handle::resolve_name(buffer, descriptor.TypeNameRva)?;
            let object_name = Handle::resolve_name(buffer, descriptor.ObjectNameRva)?;
            let handle = Handle::new(object_type_name, object_name, descriptor);
            proof {
                lemma_views_insert(handles@, handle.handle, handle);
            }
            handles.insert(handle.handle, handle);
            i += 1;
        }
        proof {
            lemma_keyed_ends(items);
        }
        Ok(handles)
    }
}

} // verus!
