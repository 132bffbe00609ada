#![allow(non_camel_case_types)]

use vstd::prelude::*;

use crate::IOX2_OK;

verus! {

/// A failure of the native creation of a server.
#[derive(Debug, Clone, Copy, PartialEq, Eq, Structural)]
pub enum ServerCreateError {
    /// The service already has as many servers as it supports.
    ExceedsMaxSupportedServers,
    /// The data segment that holds the server's payload could not be created.
    UnableToCreateDataSegment,
}

/// The stable codes under which a failed creation is reported across the
/// foreign-callable boundary.
#[derive(Debug, Clone, Copy, PartialEq, Eq, Structural)]
pub enum iox2_server_create_error_e {
    EXCEEDS_MAX_SUPPORTED_SERVERS,
    UNABLE_TO_CREATE_DATA_SEGMENT,
}

/// The integer value of an error code: the codes follow the success value
/// in the order of their declaration.
pub open spec fn error_code_value(e: iox2_server_create_error_e) -> int {
    match e {
        iox2_server_create_error_e::EXCEEDS_MAX_SUPPORTED_SERVERS => IOX2_OK + 1,
        iox2_server_create_error_e::UNABLE_TO_CREATE_DATA_SEGMENT => IOX2_OK + 2,
    }
}

/// The code under which a native creation failure is reported.
pub open spec fn error_code_of(e: ServerCreateError) -> iox2_server_create_error_e {
    match e {
        ServerCreateError::ExceedsMaxSupportedServers => {
            iox2_server_create_error_e::EXCEEDS_MAX_SUPPORTED_SERVERS
        },
        ServerCreateError::UnableToCreateDataSegment => {
            iox2_server_create_error_e::UNABLE_TO_CREATE_DATA_SEGMENT
        },
    }
}

/// The description of an error code, terminated by a nul character.
pub open spec fn error_description(e: iox2_server_create_error_e) -> Seq<char> {
    match e {
        iox2_server_create_error_e::EXCEEDS_MAX_SUPPORTED_SERVERS => {
            "exceeds max supported servers\0"@
        },
        iox2_server_create_error_e::UNABLE_TO_CREATE_DATA_SEGMENT => {
            "unable to create data segment\0"@
        },
    }
}

impl iox2_server_create_error_e {
    /// The integer value of this code.
    pub fn as_c_int(self) -> (r: i32)
        ensures
            r as int == error_code_value(self),
    {
        match self {
            iox2_server_create_error_e::EXCEEDS_MAX_SUPPORTED_SERVERS => IOX2_OK + 1,
            iox2_server_create_error_e::UNABLE_TO_CREATE_DATA_SEGMENT => IOX2_OK + 2,
        }
    }
}

impl ServerCreateError {
    /// The code of this failure.
    pub fn as_error_code(self) -> (r: iox2_server_create_error_e)
        ensures
            r == error_code_of(self),
    {
        match self {
            ServerCreateError::UnableToCreateDataSegment => {
                iox2_server_create_error_e::UNABLE_TO_CREATE_DATA_SEGMENT
            },
            ServerCreateError::ExceedsMaxSupportedServers => {
                iox2_server_create_error_e::EXCEEDS_MAX_SUPPORTED_SERVERS
            },
        }
    }

    /// The integer value of the code of this failure.
    pub fn into_c_int(self) -> (r: i32)
        ensures
            r as int == error_code_value(error_code_of(self)),
            r != IOX2_OK,
    {
        self.as_error_code().as_c_int()
    }
}

/// Returns the description of an error code: a static, nul-terminated string.
pub fn iox2_server_create_error_string(error: iox2_server_create_error_e) -> (r: &'static str)
    ensures
        r@ == error_description(error),
{
    match error {
        iox2_server_create_error_e::EXCEEDS_MAX_SUPPORTED_SERVERS => {
            "exceeds max supported servers\0"
        },
        iox2_server_create_error_e::UNABLE_TO_CREATE_DATA_SEGMENT => {
            "unable to create data segment\0"
        },
    }
}

/// Every declared error code has a description that is not empty, ends in a
/// nul character and holds no other nul character before it, and the codes
/// are distinct from one another and from the success value.
pub proof fn lemma_error_descriptions_well_formed(e: iox2_server_create_error_e)
    ensures
        error_description(e).len() > 1,
        error_description(e).last() == '\0',
        forall|i: int| 0 <= i < error_description(e).len() - 1 ==> error_description(e)[i] != '\0',
        error_code_value(e) != IOX2_OK,
        forall|f: iox2_server_create_error_e| error_code_value(f) == error_code_value(e) ==> f == e,
{
    reveal_strlit("exceeds max supported servers\0");
    reveal_strlit("unable to create data segment\0");
}

} // verus!
