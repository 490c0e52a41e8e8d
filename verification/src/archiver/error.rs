//! Errors of the archiver interface, with the context that travels with them.

use vstd::prelude::*;

use crate::calendar::now_millis;

verus! {

/// A fresh random version-4 UUID, as its 128-bit value (`uuid::Uuid::new_v4`
/// read through `Uuid::as_u128`). Nothing is promised of the value: it is
/// drawn at random.
#[verifier::external_body]
pub(crate) fn new_uuid() -> u128 {
    uuid::Uuid::new_v4().as_u128()
}

/// Where and when an error arose, and how often the operation was retried.
/// Instants are milliseconds since the Unix epoch; the trace id is the
/// 128-bit value of a UUID.
#[derive(Debug)]
pub struct ErrorContext {
    pub timestamp: i64,
    pub source_component: &'static str,
    pub operation: String,
    pub retry_count: u32,
    pub last_retry: Option<i64>,
    pub trace_id: u128,
    pub additional_info: Option<String>,
}

impl ErrorContext {
    /// A context for `operation` in `source_component`, stamped now, with a
    /// fresh trace id, no retries and no additional information.
    pub fn new(source_component: &'static str, operation: &str) -> (r: Self)
        ensures
            r.source_component@ == source_component@,
            r.operation@ == operation@,
            r.retry_count == 0,
            r.last_retry is None,
            r.additional_info is None,
    {
        ErrorContext {
            timestamp: now_millis(),
            source_component,
            operation: String::from_str(operation),
            retry_count: 0,
            last_retry: None,
            trace_id: new_uuid(),
            additional_info: None,
        }
    }

    /// The same context with `info` as its additional information.
    pub fn with_info(self, info: String) -> (r: Self)
        ensures
            r == (ErrorContext { additional_info: Some(info), ..self }),
    {
        ErrorContext { additional_info: Some(info), ..self }
    }
}

/// A failure of the HTTP transport, reduced to what the error logic reads.
#[derive(Debug, Clone)]
pub struct TransportFailure {
    pub message: String,
    pub is_timeout: bool,
    pub is_connect: bool,
}

/// Errors of the archiver interface. Durations are in milliseconds; an
/// underlying error is kept as its message.
#[derive(Debug)]
#[allow(inconsistent_fields)]
pub enum ArchiverError {
    ConnectionError {
        message: String,
        context: String,
        source: Option<String>,
        retry_after: Option<u64>,
        error_context: Option<ErrorContext>,
    },
    DataError {
        message: String,
        context: String,
        source: Option<String>,
        timestamp: i64,
        pv: Option<String>,
        error_context: Option<ErrorContext>,
    },
    CacheError {
        message: String,
        context: String,
        source: Option<String>,
        cache_key: Option<String>,
        error_context: Option<ErrorContext>,
    },
    RateLimit {
        message: String,
        retry_after: u64,
        limit: usize,
        window: u64,
        error_context: Option<ErrorContext>,
    },
    InvalidRequest {
        message: String,
        context: String,
        validation_errors: Vec<String>,
        error_context: Option<ErrorContext>,
    },
    ServerError {
        message: String,
        status: u16,
        body: Option<String>,
        retry_after: Option<u64>,
        error_context: Option<ErrorContext>,
    },
    SessionError {
        message: String,
        context: String,
        session_id: Option<u128>,
        error_context: Option<ErrorContext>,
    },
    HealthCheckError {
        message: String,
        context: String,
        source: Option<String>,
        error_context: Option<ErrorContext>,
    },
    InitializationError {
        message: String,
        context: String,
        source: Option<String>,
        error_context: Option<ErrorContext>,
    },
    IoError(String),
    ReqwestError(TransportFailure),
    JsonError(String),
    ChronoError(String),
}

/// Result type of the archiver interface.
pub type Result<T> = std::result::Result<T, ArchiverError>;

impl ArchiverError {
    /// Whether the variant carries an error context; the wrapped standard
    /// errors do not.
    pub open spec fn has_context_slot(self) -> bool {
        !(self is IoError || self is ReqwestError || self is JsonError || self is ChronoError)
    }

    /// The error's context, if it has one.
    pub open spec fn context_of(self) -> Option<ErrorContext> {
        match self {
            ArchiverError::ConnectionError { error_context, .. } => error_context,
            ArchiverError::DataError { error_context, .. } => error_context,
            ArchiverError::CacheError { error_context, .. } => error_context,
            ArchiverError::RateLimit { error_context, .. } => error_context,
            ArchiverError::InvalidRequest { error_context, .. } => error_context,
            ArchiverError::ServerError { error_context, .. } => error_context,
            ArchiverError::SessionError { error_context, .. } => error_context,
            ArchiverError::HealthCheckError { error_context, .. } => error_context,
            ArchiverError::InitializationError { error_context, .. } => error_context,
            _ => None,
        }
    }

    /// The same error with its context replaced by `c`; the wrapped standard
    /// errors, which carry no context, stay as they are.
    pub open spec fn replace_context(self, c: Option<ErrorContext>) -> Self {
        match self {
            ArchiverError::ConnectionError { message, context, source, retry_after, .. } =>
                ArchiverError::ConnectionError { message, context, source, retry_after, error_context: c },
            ArchiverError::DataError { message, context, source, timestamp, pv, .. } =>
                ArchiverError::DataError { message, context, source, timestamp, pv, error_context: c },
            ArchiverError::CacheError { message, context, source, cache_key, .. } =>
                ArchiverError::CacheError { message, context, source, cache_key, error_context: c },
            ArchiverError::RateLimit { message, retry_after, limit, window, .. } =>
                ArchiverError::RateLimit { message, retry_after, limit, window, error_context: c },
            ArchiverError::InvalidRequest { message, context, validation_errors, .. } =>
                ArchiverError::InvalidRequest { message, context, validation_errors, error_context: c },
            ArchiverError::ServerError { message, status, body, retry_after, .. } =>
                ArchiverError::ServerError { message, status, body, retry_after, error_context: c },
            ArchiverError::SessionError { message, context, session_id, .. } =>
                ArchiverError::SessionError { message, context, session_id, error_context: c },
            ArchiverError::HealthCheckError { message, context, source, .. } =>
                ArchiverError::HealthCheckError { message, context, source, error_context: c },
            ArchiverError::InitializationError { message, context, source, .. } =>
                ArchiverError::InitializationError { message, context, source, error_context: c },
            other => other,
        }
    }

    /// Which errors are transient: connection, rate-limit, session and
    /// health-check errors, server errors with status 502, 503 or 504, and
    /// transport failures that timed out or could not connect.
    pub open spec fn spec_is_retryable(self) -> bool {
        match self {
            ArchiverError::ConnectionError { .. } => true,
            ArchiverError::RateLimit { .. } => true,
            ArchiverError::ServerError { status, .. } => status == 502 || status == 503 || status
                == 504,
            ArchiverError::SessionError { .. } => true,
            ArchiverError::HealthCheckError { .. } => true,
            ArchiverError::ReqwestError(t) => t.is_timeout || t.is_connect,
            _ => false,
        }
    }

    /// The suggested delay before a retry, in milliseconds.
    pub open spec fn spec_retry_after(self) -> Option<u64> {
        match self {
            ArchiverError::ConnectionError { retry_after, .. } => retry_after,
            ArchiverError::RateLimit { retry_after, .. } => Some(retry_after),
            ArchiverError::ServerError { retry_after, .. } => retry_after,
            ArchiverError::SessionError { .. } => Some(1000),
            _ => None,
        }
    }

    /// The number of retries recorded in the context, 0 without one.
    pub open spec fn spec_retry_count(self) -> u32 {
        match self.context_of() {
            Some(c) => c.retry_count,
            None => 0,
        }
    }

    /// The same error carrying a fresh context for `operation` in
    /// `source_component`.
    pub fn with_context(self, source_component: &'static str, operation: &str) -> (r: Self)
        ensures
            self.has_context_slot() ==> (r.context_of() matches Some(c) && c.source_component@
                == source_component@ && c.operation@ == operation@ && c.retry_count == 0
                && c.last_retry is None && c.additional_info is None),
            self.has_context_slot() ==> r.replace_context(None) == self.replace_context(None),
            !self.has_context_slot() ==> r == self,
    {
        let error_context = ErrorContext::new(source_component, operation);
        self.add_context(error_context)
    }

    /// The same error with `error_context` as its context; the wrapped
    /// standard errors are returned as they are.
    pub fn add_context(self, error_context: ErrorContext) -> (r: Self)
        ensures
            r == self.replace_context(Some(error_context)),
    {
        match self {
            ArchiverError::ConnectionError { message, context, source, retry_after, .. } =>
                ArchiverError::ConnectionError {
                message,
                context,
                source,
                retry_after,
                error_context: Some(error_context),
            },
            ArchiverError::DataError { message, context, source, timestamp, pv, .. } =>
                ArchiverError::DataError {
                message,
                context,
                source,
                timestamp,
                pv,
                error_context: Some(error_context),
            },
            ArchiverError::CacheError { message, context, source, cache_key, .. } =>
                ArchiverError::CacheError {
                message,
                context,
                source,
                cache_key,
                error_context: Some(error_context),
            },
            ArchiverError::RateLimit { message, retry_after, limit, window, .. } =>
                ArchiverError::RateLimit {
                message,
                retry_after,
                limit,
                window,
                error_context: Some(error_context),
            },
            ArchiverError::InvalidRequest { message, context, validation_errors, .. } =>
                ArchiverError::InvalidRequest {
                message,
                context,
                validation_errors,
                error_context: Some(error_context),
            },
            ArchiverError::ServerError { message, status, body, retry_after, .. } =>
                ArchiverError::ServerError {
                message,
                status,
                body,
                retry_after,
                error_context: Some(error_context),
            },
            ArchiverError::SessionError { message, context, session_id, .. } =>
                ArchiverError::SessionError {
                message,
                context,
                session_id,
                error_context: Some(error_context),
            },
            ArchiverError::HealthCheckError { message, context, source, .. } =>
                ArchiverError::HealthCheckError {
                message,
                context,
                source,
                error_context: Some(error_context),
            },
            ArchiverError::InitializationError { message, context, source, .. } =>
                ArchiverError::InitializationError {
                message,
                context,
                source,
                error_context: Some(error_context),
            },
            other => other,
        }
    }

    /// Whether the error is likely transient, so that the operation can be
    /// retried.
    pub fn is_retryable(&self) -> (r: bool)
        ensures
            r == self.spec_is_retryable(),
    {
        match self {
            ArchiverError::ConnectionError { .. } => true,
            ArchiverError::RateLimit { .. } => true,
            ArchiverError::ServerError { status, .. } => *status == 502 || *status == 503
                || *status == 504,
            ArchiverError::SessionError { .. } => true,
            ArchiverError::DataError { .. } => false,
            ArchiverError::CacheError { .. } => false,
            ArchiverError::InvalidRequest { .. } => false,
            ArchiverError::IoError(_) => false,
            ArchiverError::ReqwestError(t) => t.is_timeout || t.is_connect,
            ArchiverError::JsonError(_) => false,
            ArchiverError::ChronoError(_) => false,
            ArchiverError::HealthCheckError { .. } => true,
            ArchiverError::InitializationError { .. } => false,
        }
    }

    /// The suggested delay before a retry, in milliseconds, where there is one.
    pub fn retry_after(&self) -> (r: Option<u64>)
        ensures
            r == self.spec_retry_after(),
    {
        match self {
            ArchiverError::ConnectionError { retry_after, .. } => *retry_after,
            ArchiverError::RateLimit { retry_after, .. } => Some(*retry_after),
            ArchiverError::ServerError { retry_after, .. } => *retry_after,
            ArchiverError::SessionError { .. } => Some(1000),
            _ => None,
        }
    }

    /// The number of times the operation has been retried.
    pub fn retry_count(&self) -> (r: u32)
        ensures
            r == self.spec_retry_count(),
    {
        match self.error_context() {
            Some(ctx) => ctx.retry_count,
            None => 0,
        }
    }

    /// The error's context, if it has one.
    pub fn error_context(&self) -> (r: Option<&ErrorContext>)
        ensures
            match r {
                Some(c) => self.context_of() == Some(*c),
                None => self.context_of() is None,
            },
    {
        match self {
            ArchiverError::ConnectionError { error_context, .. } => error_context.as_ref(),
            ArchiverError::DataError { error_context, .. } => error_context.as_ref(),
            ArchiverError::CacheError { error_context, .. } => error_context.as_ref(),
            ArchiverError::RateLimit { error_context, .. } => error_context.as_ref(),
            ArchiverError::InvalidRequest { error_context, .. } => error_context.as_ref(),
            ArchiverError::ServerError { error_context, .. } => error_context.as_ref(),
            ArchiverError::SessionError { error_context, .. } => error_context.as_ref(),
            ArchiverError::HealthCheckError { error_context, .. } => error_context.as_ref(),
            ArchiverError::InitializationError { error_context, .. } => error_context.as_ref(),
            _ => None,
        }
    }

    /// The error without its context, and the context it had.
    fn split_context(self) -> (r: (Self, Option<ErrorContext>))
        ensures
            r.0 == self.replace_context(None),
            r.1 == self.context_of(),
    {
        match self {
            ArchiverError::ConnectionError { message, context, source, retry_after, error_context } =>
                (ArchiverError::ConnectionError { message, context, source, retry_after, error_context: None }, error_context),
            ArchiverError::DataError { message, context, source, timestamp, pv, error_context } =>
                (ArchiverError::DataError { message, context, source, timestamp, pv, error_context: None }, error_context),
            ArchiverError::CacheError { message, context, source, cache_key, error_context } =>
                (ArchiverError::CacheError { message, context, source, cache_key, error_context: None }, error_context),
            ArchiverError::RateLimit { message, retry_after, limit, window, error_context } =>
                (ArchiverError::RateLimit { message, retry_after, limit, window, error_context: None }, error_context),
            ArchiverError::InvalidRequest { message, context, validation_errors, error_context } =>
                (ArchiverError::InvalidRequest { message, context, validation_errors, error_context: None }, error_context),
            ArchiverError::ServerError { message, status, body, retry_after, error_context } =>
                (ArchiverError::ServerError { message, status, body, retry_after, error_context: None }, error_context),
            ArchiverError::SessionError { message, context, session_id, error_context } =>
                (ArchiverError::SessionError { message, context, session_id, error_context: None }, error_context),
            ArchiverError::HealthCheckError { message, context, source, error_context } =>
                (ArchiverError::HealthCheckError { message, context, source, error_context: None }, error_context),
            ArchiverError::InitializationError { message, context, source, error_context } =>
                (ArchiverError::InitializationError { message, context, source, error_context: None }, error_context),
            other => (other, None),
        }
    }

    /// Records one more retry in the error's context, stamped now; an error
    /// without a context is left as it is.
    pub fn increment_retry(&mut self)
        requires
            old(self).context_of() matches Some(c) ==> c.retry_count < u32::MAX,
        ensures
            match old(self).context_of() {
                Some(c) => final(self).context_of() matches Some(d) && d.retry_count
                    == c.retry_count + 1 && d.last_retry is Some && d.timestamp == c.timestamp
                    && d.source_component == c.source_component && d.operation == c.operation
                    && d.trace_id == c.trace_id && d.additional_info == c.additional_info
                    && final(self).replace_context(None) == old(self).replace_context(None),
                None => *final(self) == *old(self),
            },
    {
        let mut taken = ArchiverError::IoError(String::new());
        std::mem::swap(self, &mut taken);
        let (shell, ctx) = taken.split_context();
        match ctx {
            Some(c) => {
                let updated = ErrorContext {
                    retry_count: c.retry_count + 1,
                    last_retry: Some(now_millis()),
                    ..c
                };
                *self = shell.add_context(updated);
            },
            None => {
                *self = shell;
            },
        }
    }
}

} // verus!
