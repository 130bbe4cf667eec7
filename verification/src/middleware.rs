//! The middleware: its configuration, and the steps it takes around the
//! handling of each request.

use vstd::prelude::*;
use vstd::utf8::encode_utf8;
use std::sync::Arc;
use actix_web::dev::Extensions;
use actix_web::http::header::HeaderMap;
use crate::canonical::{
    hyphenated_text, is_lower_hex, is_random_version, is_separator_index, lemma_hyphenated_shape,
    lemma_simple_shape, simple_text,
};
use crate::context::{lookup_request_id, store_request_id, stored_request_id};
use crate::generator::{rendering, CustomGenerator, FormattedUuid, IdGenerator, UuidFormat};
use crate::headers::{
    append_header, append_outcome, appends, header_lines, is_header_value, is_header_value_char,
    parsed_header_name, HeaderError,
};
use crate::identifier::RequestID;
use crate::slot::{clear_current_request_id, set_current_request_id, ThreadSlot};

verus! {

/// Default request ID header name.
pub const REQUEST_ID_HEADER: &'static str = "request-id";

/// Default ID length: that of the canonical hyphenated form.
pub const DEFAULT_ID_LENGTH: usize = 36;

/// Why a configuration was refused.
#[derive(Clone, Copy, Debug, PartialEq, Eq, Structural)]
pub enum ConfigError {
    /// The identifier length was zero.
    ZeroLength,
}

impl ConfigError {
    /// The error in words.
    pub fn message(&self) -> (text: &'static str)
        ensures
            text@ == "Request ID length must be greater than 0"@,
    {
        "Request ID length must be greater than 0"
    }
}

/// Middleware configuration: how identifiers are generated, under which
/// header name they are sent back, and the identifier length that the
/// configuration was made for.
pub struct RequestIDMiddleware<G> {
    generator: Arc<G>,
    header_name: String,
    id_length: usize,
}

impl RequestIDMiddleware<UuidFormat> {
    /// A configuration whose identifiers are the first `id_length` characters
    /// of the canonical form of a random value (the whole form from 36 on),
    /// sent under the default header name.
    pub fn new(id_length: usize) -> (middleware: Self)
        requires
            id_length > 0,
        ensures
            middleware.id_source() == UuidFormat::Truncated(id_length),
            middleware.header() == REQUEST_ID_HEADER@,
            middleware.length() == id_length,
    {
        RequestIDMiddleware {
            generator: Arc::new(UuidFormat::Truncated(id_length)),
            header_name: REQUEST_ID_HEADER.to_string(),
            id_length,
        }
    }

    /// As `new`, but a length of zero is answered with an error.
    pub fn try_new(id_length: usize) -> (made: Result<Self, ConfigError>)
        ensures
            id_length == 0 <==> made is Err,
            made matches Err(error) ==> error == ConfigError::ZeroLength,
            made matches Ok(middleware) ==> {
                &&& middleware.id_source() == UuidFormat::Truncated(id_length)
                &&& middleware.header() == REQUEST_ID_HEADER@
                &&& middleware.length() == id_length
            },
    {
        if id_length == 0 {
            Err(ConfigError::ZeroLength)
        } else {
            Ok(Self::new(id_length))
        }
    }
}

impl Default for RequestIDMiddleware<UuidFormat> {
    fn default() -> (middleware: Self)
        ensures
            middleware.id_source() == UuidFormat::Truncated(DEFAULT_ID_LENGTH),
            middleware.header() == REQUEST_ID_HEADER@,
            middleware.length() == DEFAULT_ID_LENGTH,
    {
        Self::new(DEFAULT_ID_LENGTH)
    }
}

impl<G> RequestIDMiddleware<G> {
    /// The configured generator.
    pub closed spec fn id_source(&self) -> G {
        *self.generator
    }

    /// The configured header name.
    pub closed spec fn header(&self) -> Seq<char> {
        self.header_name@
    }

    /// The configured identifier length.
    pub closed spec fn length(&self) -> usize {
        self.id_length
    }

    /// Replaces the generator by a function of the caller's own.
    pub fn generator<F>(self, f: F) -> (middleware: RequestIDMiddleware<CustomGenerator<F>>)
        where F: Fn() -> String + Send + Sync + 'static
        requires
            call_requires(f, ()),
        ensures
            middleware.id_source().function() == f,
            middleware.header() == self.header(),
            middleware.length() == self.length(),
    {
        RequestIDMiddleware {
            generator: Arc::new(CustomGenerator::new(f)),
            header_name: self.header_name,
            id_length: self.id_length,
        }
    }

    /// Replaces the header name.
    pub fn header_name(self, header_name: &str) -> (middleware: Self)
        ensures
            middleware.header() == header_name@,
            middleware.id_source() == self.id_source(),
            middleware.length() == self.length(),
    {
        RequestIDMiddleware {
            generator: self.generator,
            header_name: header_name.to_string(),
            id_length: self.id_length,
        }
    }

    /// Switches to the full canonical form, 36 characters with hyphens.
    pub fn with_full_uuid(self) -> (middleware: RequestIDMiddleware<UuidFormat>)
        ensures
            middleware.id_source() == UuidFormat::Full,
            middleware.header() == self.header(),
            middleware.length() == 36,
    {
        RequestIDMiddleware {
            generator: Arc::new(UuidFormat::Full),
            header_name: self.header_name,
            id_length: 36,
        }
    }

    /// Switches to the simple form, 32 characters without hyphens.
    pub fn with_simple_uuid(self) -> (middleware: RequestIDMiddleware<UuidFormat>)
        ensures
            middleware.id_source() == UuidFormat::Simple,
            middleware.header() == self.header(),
            middleware.length() == 32,
    {
        RequestIDMiddleware {
            generator: Arc::new(UuidFormat::Simple),
            header_name: self.header_name,
            id_length: 32,
        }
    }

    /// Lets `formatter` write each freshly drawn random value.
    pub fn with_custom_uuid_format<F>(self, formatter: F) -> (middleware: RequestIDMiddleware<
        FormattedUuid<F>,
    >)
        where F: Fn(u128) -> String + Send + Sync + 'static
        requires
            forall|value: u128| is_random_version(value) ==> call_requires(formatter, (value,)),
        ensures
            middleware.id_source().formatter() == formatter,
            middleware.header() == self.header(),
            middleware.length() == self.length(),
    {
        RequestIDMiddleware {
            generator: Arc::new(FormattedUuid::new(formatter)),
            header_name: self.header_name,
            id_length: self.id_length,
        }
    }

    /// The currently configured ID length.
    pub fn get_id_length(&self) -> (length: usize)
        ensures
            length == self.length(),
    {
        self.id_length
    }

    /// The currently configured header name.
    pub fn get_header_name(&self) -> (name: &str)
        ensures
            name@ == self.header(),
    {
        self.header_name.as_str()
    }

    /// The service that wraps `service` with this configuration.
    pub fn new_transform<S>(&self, service: S) -> (wrapper: RequestIDService<S, G>)
        ensures
            wrapper.inner() == service,
            wrapper.id_source() == self.id_source(),
            wrapper.header() == self.header(),
            wrapper.length() == self.length(),
    {
        RequestIDService {
            wrapped_service: service,
            generator: self.generator.clone(),
            header_name: self.header_name.clone(),
            id_length: self.id_length,
        }
    }
}

/// An identifier made in one of the built-in formats is always fit for a
/// header value: with those formats only an unfit header name can keep the
/// identifier from being attached to a response.
pub proof fn lemma_builtin_identifier_fits_header(
    format: UuidFormat,
    id: Seq<char>,
    name: Seq<char>,
)
    requires
        format.produces(id),
    ensures
        is_header_value(id),
        append_outcome(name, id) != Err::<(), HeaderError>(HeaderError::InvalidValue),
{
    let value = choose|value: u128|
        is_random_version(value) && id == #[trigger] rendering(format, value);
    lemma_hyphenated_shape(value);
    lemma_simple_shape(value);
    assert forall|i: int| 0 <= i < id.len() implies is_header_value_char(#[trigger] id[i]) by {
        match format {
            UuidFormat::Simple => {
                assert(id[i] == simple_text(value)[i]);
            },
            _ => {
                assert(id[i] == hyphenated_text(value)[i]);
                assert(is_separator_index(i) || is_lower_hex(hyphenated_text(value)[i]));
            },
        }
    }
}

/// The middleware around one wrapped handling stage.
pub struct RequestIDService<S, G> {
    wrapped_service: S,
    generator: Arc<G>,
    header_name: String,
    #[allow(dead_code)]
    id_length: usize,
}

/// A request between the two steps of the middleware: its identifier has been
/// settled and the wrapped stage is at work on it.
pub struct Pending {
    id: String,
}

impl View for Pending {
    type V = Seq<char>;

    /// The identifier that was settled for the request.
    closed spec fn view(&self) -> Seq<char> {
        self.id@
    }
}

impl Pending {
    /// The identifier that was settled for the request.
    pub fn request_id(&self) -> (id: &str)
        ensures
            id@ == self@,
    {
        self.id.as_str()
    }
}

/// How the identifier of a request is settled: one that the request's context
/// held before is kept, and the context with it; otherwise the identifier is
/// one that `source` produces, and the context holds it afterwards.
pub open spec fn settles<G: IdGenerator>(
    source: G,
    before: Extensions,
    after: Extensions,
    id: Seq<char>,
) -> bool {
    &&& stored_request_id(after) == Some(id)
    &&& match stored_request_id(before) {
        Some(text) => id == text && after == before,
        None => source.produces(id),
    }
}

impl<S, G> RequestIDService<S, G> {
    /// The wrapped handling stage.
    pub closed spec fn inner(&self) -> S {
        self.wrapped_service
    }

    /// The generator in use.
    pub closed spec fn id_source(&self) -> G {
        *self.generator
    }

    /// The header name in use.
    pub closed spec fn header(&self) -> Seq<char> {
        self.header_name@
    }

    /// The identifier length that the configuration was made for.
    pub closed spec fn length(&self) -> usize {
        self.id_length
    }

    /// The wrapped handling stage, to delegate to.
    pub fn wrapped_service(&self) -> (service: &S)
        ensures
            *service == self.inner(),
    {
        &self.wrapped_service
    }
}

impl<S, G: IdGenerator> RequestIDService<S, G> {
    /// The identifier for a request: the one that its context already holds,
    /// or else a new one from the generator, which is then stored in the
    /// context.
    pub fn generate_request_id(&self, extensions: &mut Extensions) -> (id: String)
        ensures
            settles(self.id_source(), *old(extensions), *final(extensions), id@),
    {
        if let Some(existing) = lookup_request_id(extensions) {
            return existing.to_string();
        }
        let new_id = RequestID::new(self.generator.generate());
        store_request_id(extensions, new_id.clone());
        String::from(new_id)
    }

    /// What the middleware does before it delegates to the wrapped stage: it
    /// settles the request's identifier and puts it in the thread's slot.
    pub fn begin(&self, extensions: &mut Extensions, slot: &mut ThreadSlot) -> (pending: Pending)
        ensures
            settles(self.id_source(), *old(extensions), *final(extensions), pending@),
            final(slot)@ == Some(pending@),
    {
        let id = self.generate_request_id(extensions);
        set_current_request_id(slot, id.as_str());
        Pending { id }
    }

    /// What the middleware does once the wrapped stage is done. Where the
    /// stage gave a response, `response_headers` are its headers and the
    /// request's identifier is appended to them under the configured name;
    /// where it gave none, there is nothing to append to. The thread's slot
    /// is emptied in every case.
    pub fn complete(
        &self,
        pending: Pending,
        response_headers: Option<&mut HeaderMap>,
        slot: &mut ThreadSlot,
    ) -> (outcome: Result<(), HeaderError>)
        ensures
            final(slot)@ is None,
            response_headers is None ==> outcome is Ok,
            response_headers matches Some(headers) ==> appends(
                *headers,
                *final(headers),
                self.header(),
                pending@,
                outcome,
            ),
    {
        let outcome = match response_headers {
            Some(headers) => append_header(headers, self.header_name.as_str(), pending.id.as_str()),
            None => Ok(()),
        };
        clear_current_request_id(slot);
        outcome
    }
}

/// What a generator that is a function of the caller's own returns is used
/// verbatim: for a request whose context held no identifier, the text that
/// the middleware settles on is one that the function returned, and that text
/// is what the thread's slot holds while the request is handled and what the
/// response carries under the header name.
pub proof fn lemma_custom_output_is_used_verbatim<F: Fn() -> String>(
    generator: CustomGenerator<F>,
    context_before: Extensions,
    context_after: Extensions,
    slot: ThreadSlot,
    id: Seq<char>,
    header: Seq<char>,
    headers_before: HeaderMap,
    headers_after: HeaderMap,
)
    requires
        stored_request_id(context_before) is None,
        settles(generator, context_before, context_after, id),
        slot@ == Some(id),
        appends(headers_before, headers_after, header, id, Ok(())),
    ensures
        exists|text: String|
            {
                &&& #[trigger] call_ensures(generator.function(), (), text)
                &&& slot@ == Some(text@)
                &&& stored_request_id(context_after) == Some(text@)
                &&& header_lines(headers_after)[parsed_header_name(header)->0].last()
                    == encode_utf8(text@)
            },
{
    let text = choose|text: String|
        #[trigger] call_ensures(generator.function(), (), text) && text@ == id;
    assert(call_ensures(generator.function(), (), text));
}

} // verus!
