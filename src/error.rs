use vstd::prelude::*;

verus! {

#[verifier::external_type_specification]
#[verifier::external_body]
pub struct ExIoError(std::io::Error);

/// Why a request failed.
#[derive(Debug)]
pub enum ClientError {
    /// The host resolved to no address.
    AddressNotFound(String),
    /// A failure of the transport: resolution, connect, handshake or I/O.
    Network(std::io::Error),
}

impl From<std::io::Error> for ClientError {
    fn from(value: std::io::Error) -> (r: ClientError) {
        ClientError::Network(value)
    }
}

impl vstd::std_specs::convert::FromSpecImpl<std::io::Error> for ClientError {
    open spec fn obeys_from_spec() -> bool {
        true
    }

    open spec fn from_spec(v: std::io::Error) -> ClientError {
        ClientError::Network(v)
    }
}

/// Relies on the `Display` of `std::io::Error`: the text of the error.
#[verifier::external_body]
fn io_error_text(e: &std::io::Error) -> (r: String) {
    e.to_string()
}

impl ClientError {
    /// The underlying transport error, where there is one.
    pub fn source(&self) -> (r: Option<&std::io::Error>)
        ensures
            match self {
                ClientError::AddressNotFound(_) => r is None,
                ClientError::Network(e) => r == Some(e),
            },
    {
        match self {
            ClientError::AddressNotFound(_) => None,
            ClientError::Network(e) => Some(e),
        }
    }

    /// A line of text that describes the error.
    pub fn message(&self) -> (r: String)
        ensures
            match self {
                ClientError::AddressNotFound(a) => r@ == "Address not found: "@ + a@,
                ClientError::Network(_) => r@.len() >= 15 && r@.subrange(0, 15)
                    == "Network error: "@,
            },
    {
        proof {
            reveal_strlit("Address not found: ");
            reveal_strlit("Network error: ");
        }
        match self {
            ClientError::AddressNotFound(a) => String::from_str("Address not found: ").concat(
                a.as_str(),
            ),
            ClientError::Network(e) => {
                let t = io_error_text(e);
                let r = String::from_str("Network error: ").concat(t.as_str());
                assert(r@.subrange(0, 15) =~= "Network error: "@);
                r
            },
        }
    }
}

} // verus!
