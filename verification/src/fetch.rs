use vstd::prelude::*;

verus! {

/// A response status in the success range.
pub open spec fn is_success_status(code: u16) -> bool {
    200 <= code < 300
}

/// A response status in the client-error range: the provider itself
/// reported an application-level error.
pub open spec fn is_client_error_status(code: u16) -> bool {
    400 <= code < 500
}

/// The three ways a response status is handled: decode the body as the
/// success payload, decode it as the provider's error payload, or surface
/// the status itself.
#[derive(Debug, Copy, Clone, PartialEq, Eq, Structural)]
pub enum StatusClass {
    Success,
    ClientError,
    Other,
}

/// Sorts a response status into its handling class.
pub fn classify_status(code: u16) -> (c: StatusClass)
    ensures
        c is Success <==> is_success_status(code),
        c is ClientError <==> is_client_error_status(code),
        c is Other <==> !is_success_status(code) && !is_client_error_status(code),
{
    if code >= 200 && code < 300 {
        StatusClass::Success
    } else if code >= 400 && code < 500 {
        StatusClass::ClientError
    } else {
        StatusClass::Other
    }
}

/// How one fetch failed. A provider that answered with a structured error
/// payload, a body that did not match the expected schema, a status outside
/// both handled ranges, and a transport that never delivered a response are
/// kept apart and surfaced verbatim.
#[derive(Debug)]
pub enum FetchError<E> {
    /// The provider reported an application-level error (client-error
    /// status with a parseable body).
    Provider(E),
    /// A response body did not match the expected schema; the raw body and
    /// the decoder's complaint are both kept.
    Decode { body: String, cause: String },
    /// A status outside both the success and the client-error range.
    UnexpectedStatus(u16),
    /// The transport itself failed; its message is passed through unchanged.
    Transport(String),
}

/// A response body after the transport layer's decode attempt: decoded as
/// the success payload for a success status, as the provider's error
/// payload for a client-error status, and not at all for any other status.
#[derive(Debug)]
pub enum DecodedBody<T, E> {
    AsSuccess(Result<T, String>),
    AsError(Result<E, String>),
    Undecoded,
}

/// Judges one response. A decoded success payload is the result; a decoded
/// provider error is surfaced as such; a failed decode is reported with the
/// raw body rather than swallowed; any unhandled status is surfaced with
/// its code.
pub fn interpret_response<T, E>(status: u16, body: String, decoded: DecodedBody<T, E>) -> (r:
    Result<T, FetchError<E>>)
    requires
        decoded is AsSuccess <==> is_success_status(status),
        decoded is AsError <==> is_client_error_status(status),
    ensures
        match decoded {
            DecodedBody::AsSuccess(d) => match d {
                Ok(t) => r == Ok::<T, FetchError<E>>(t),
                Err(cause) => r == Err::<T, FetchError<E>>(
                    (FetchError::Decode { body, cause }),
                ),
            },
            DecodedBody::AsError(d) => match d {
                Ok(e) => r == Err::<T, FetchError<E>>(FetchError::Provider(e)),
                Err(cause) => r == Err::<T, FetchError<E>>(
                    (FetchError::Decode { body, cause }),
                ),
            },
            DecodedBody::Undecoded => r == Err::<T, FetchError<E>>(
                FetchError::UnexpectedStatus(status),
            ),
        },
{
    match decoded {
        DecodedBody::AsSuccess(Ok(t)) => Ok(t),
        DecodedBody::AsSuccess(Err(cause)) => Err(FetchError::Decode { body, cause }),
        DecodedBody::AsError(Ok(e)) => Err(FetchError::Provider(e)),
        DecodedBody::AsError(Err(cause)) => Err(FetchError::Decode { body, cause }),
        DecodedBody::Undecoded => Err(FetchError::UnexpectedStatus(status)),
    }
}

} // verus!
