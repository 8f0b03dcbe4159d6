//! Session establishment: the settings of a client session, and the client
//! builder that carries them.
//!
//! Every session has the same request timeout and the same limits on message
//! size. It carries the credential as an out-of-band token, and it runs over a
//! secure transport exactly when the endpoint's address begins with `https`.
//!
//! The builder is the one of `yellowstone_grpc_client`. Whether that crate
//! takes an address or a token is for it to say; this module names its two
//! verdicts and goes by them.

use vstd::prelude::*;
use yellowstone_grpc_client::{GeyserGrpcBuilder, GeyserGrpcBuilderError};

verus! {

/// Seconds after which a request on the session is given up.
pub const REQUEST_TIMEOUT_SECS: u64 = 10;

/// The largest message, in bytes, that the session sends or accepts: 64 MiB.
pub const MAX_MESSAGE_BYTES: usize = 64 * 1024 * 1024;

/// The settings of a client session.
#[derive(Debug, PartialEq, Eq)]
pub struct SessionConfig {
    /// The address of the source.
    pub endpoint: String,
    /// The credential, sent with every request as an out-of-band token.
    pub token: String,
    pub timeout_secs: u64,
    pub max_decoding_message_size: usize,
    pub max_encoding_message_size: usize,
    /// Whether the transport is secured, trusting the platform's root
    /// certificates.
    pub tls: bool,
}

/// Why a client builder could not be made from the settings.
#[derive(Clone, Copy, Debug, PartialEq, Eq)]
pub enum SetupError {
    /// The endpoint's address was not taken.
    Endpoint,
    /// The credential cannot be sent as a token.
    Credential,
}

/// The address calls for a secure transport: it begins with `https`.
pub open spec fn secure_scheme(url: Seq<char>) -> bool {
    url.len() >= 5 && url.subrange(0, 5) == "https"@
}

/// `yellowstone_grpc_client::GeyserGrpcBuilder`, the builder of a client.
/// Nothing inside it is visible here; it is made, handed on and returned.
#[verifier::external_type_specification]
#[verifier::external_body]
pub struct ExGeyserGrpcBuilder(GeyserGrpcBuilder);

/// `yellowstone_grpc_client::GeyserGrpcBuilderError`, the error of a call on
/// the builder. Nothing inside it is visible here.
#[verifier::external_type_specification]
#[verifier::external_body]
pub struct ExGeyserGrpcBuilderError(GeyserGrpcBuilderError);

/// Whether `GeyserGrpcBuilder::from_shared` takes this text as the address of
/// an endpoint.
pub uninterp spec fn endpoint_accepted(endpoint: Seq<char>) -> bool;

/// Whether `GeyserGrpcBuilder::x_token` takes this text as a token.
pub uninterp spec fn token_accepted(token: Seq<char>) -> bool;

/// `GeyserGrpcBuilder::from_shared`: a builder for the endpoint at this
/// address. The call parses the address and fails if it is no valid URI;
/// the contract claims only that success is a matter of the address alone.
#[verifier::external_body]
fn builder_from_shared(endpoint: String) -> (res: Result<
    GeyserGrpcBuilder,
    GeyserGrpcBuilderError,
>)
    ensures
        res is Ok <==> endpoint_accepted(endpoint@),
{
    GeyserGrpcBuilder::from_shared(endpoint)
}

/// `GeyserGrpcBuilder::timeout`: the builder with a request timeout of this
/// many seconds. Nothing is claimed of the result.
#[verifier::external_body]
fn builder_timeout(builder: GeyserGrpcBuilder, secs: u64) -> GeyserGrpcBuilder {
    builder.timeout(std::time::Duration::from_secs(secs))
}

/// `GeyserGrpcBuilder::max_decoding_message_size`: the builder with this
/// limit on inbound messages. Nothing is claimed of the result.
#[verifier::external_body]
fn builder_max_decoding_message_size(builder: GeyserGrpcBuilder, limit: usize) -> GeyserGrpcBuilder {
    builder.max_decoding_message_size(limit)
}

/// `GeyserGrpcBuilder::max_encoding_message_size`: the builder with this
/// limit on outbound messages. Nothing is claimed of the result.
#[verifier::external_body]
fn builder_max_encoding_message_size(builder: GeyserGrpcBuilder, limit: usize) -> GeyserGrpcBuilder {
    builder.max_encoding_message_size(limit)
}

/// `GeyserGrpcBuilder::x_token`: the builder with this token attached. The
/// call fails if the text cannot be a metadata value; the contract claims
/// only that success is a matter of the text alone.
#[verifier::external_body]
fn builder_x_token(builder: GeyserGrpcBuilder, token: String) -> (res: Result<
    GeyserGrpcBuilder,
    GeyserGrpcBuilderError,
>)
    ensures
        res is Ok <==> token_accepted(token@),
{
    builder.x_token(Some(token))
}

/// Whether the address calls for a secure transport.
pub fn uses_secure_transport(url: &str) -> (secure: bool)
    ensures
        secure == secure_scheme(url@),
{
    proof {
        reveal_strlit("https");
    }
    if url.unicode_len() < 5 {
        return false;
    }
    let secure = url.get_char(0) == 'h' && url.get_char(1) == 't' && url.get_char(2) == 't'
        && url.get_char(3) == 'p' && url.get_char(4) == 's';
    proof {
        let head = url@.subrange(0, 5);
        if secure {
            assert(head =~= "https"@);
        } else {
            assert(head[0] == url@[0]);
            assert(head[1] == url@[1]);
            assert(head[2] == url@[2]);
            assert(head[3] == url@[3]);
            assert(head[4] == url@[4]);
        }
    }
    secure
}

/// The settings of the session to the source at `url`, with `token` as the
/// credential.
pub fn session_config(url: String, token: String) -> (config: SessionConfig)
    ensures
        config.endpoint@ == url@,
        config.token@ == token@,
        config.timeout_secs == REQUEST_TIMEOUT_SECS,
        config.max_decoding_message_size == MAX_MESSAGE_BYTES,
        config.max_encoding_message_size == MAX_MESSAGE_BYTES,
        config.tls == secure_scheme(url@),
{
    let tls = uses_secure_transport(url.as_str());
    SessionConfig {
        endpoint: url,
        token,
        timeout_secs: REQUEST_TIMEOUT_SECS,
        max_decoding_message_size: MAX_MESSAGE_BYTES,
        max_encoding_message_size: MAX_MESSAGE_BYTES,
        tls,
    }
}

/// Makes the client builder for a session: the endpoint, then the request
/// timeout, the two message limits and the token, each as the settings give
/// it. Transport security and the connection itself are left to the caller.
///
/// Fails with [`SetupError::Endpoint`] exactly when the address is not taken,
/// and with [`SetupError::Credential`] exactly when the address is taken and
/// the token is not.
pub fn configure(config: &SessionConfig) -> (res: Result<GeyserGrpcBuilder, SetupError>)
    ensures
        res is Ok <==> endpoint_accepted(config.endpoint@) && token_accepted(config.token@),
        res == Err::<GeyserGrpcBuilder, SetupError>(SetupError::Endpoint) <==> !endpoint_accepted(
            config.endpoint@,
        ),
        res == Err::<GeyserGrpcBuilder, SetupError>(SetupError::Credential) <==> endpoint_accepted(
            config.endpoint@,
        ) && !token_accepted(config.token@),
{
    let builder = match builder_from_shared(config.endpoint.clone()) {
        Ok(builder) => builder,
        Err(_) => {
            return Err(SetupError::Endpoint);
        },
    };
    let builder = builder_timeout(builder, config.timeout_secs);
    let builder = builder_max_decoding_message_size(builder, config.max_decoding_message_size);
    let builder = builder_max_encoding_message_size(builder, config.max_encoding_message_size);
    match builder_x_token(builder, config.token.clone()) {
        Ok(builder) => Ok(builder),
        Err(_) => Err(SetupError::Credential),
    }
}

} // verus!
