//! Errors of the HTTP interface and of job processing, and the problem documents they map to.
use vstd::prelude::*;

use crate::domain::ProblemDetails;
use crate::text::{concat2, owned};

verus! {

/// A failed request, with the message shown to the client.
#[derive(Debug)]
pub enum AppError {
    Unauthorized(String),
    NotFound(String),
    Conflict(String),
    Validation(String),
    RateLimited(String),
    Database(String),
    Storage(String),
    Internal(String),
}

pub open spec fn app_error_code(e: AppError) -> Seq<char> {
    match e {
        AppError::Unauthorized(_) => "unauthorized"@,
        AppError::NotFound(_) => "not_found"@,
        AppError::Conflict(_) => "conflict"@,
        AppError::Validation(_) => "validation_error"@,
        AppError::RateLimited(_) => "rate_limited"@,
        AppError::Database(_) => "database_error"@,
        AppError::Storage(_) => "storage_error"@,
        AppError::Internal(_) => "internal_error"@,
    }
}

pub open spec fn app_error_status(e: AppError) -> u16 {
    match e {
        AppError::Unauthorized(_) => 401,
        AppError::NotFound(_) => 404,
        AppError::Conflict(_) => 409,
        AppError::Validation(_) => 422,
        AppError::RateLimited(_) => 429,
        AppError::Database(_) | AppError::Storage(_) | AppError::Internal(_) => 500,
    }
}

pub open spec fn app_error_title(e: AppError) -> Seq<char> {
    match e {
        AppError::Unauthorized(_) => "Autenticación requerida"@,
        AppError::NotFound(_) => "Recurso no encontrado"@,
        AppError::Conflict(_) => "Conflicto de estado"@,
        AppError::Validation(_) => "Entrada inválida"@,
        AppError::RateLimited(_) => "Límite de uso alcanzado"@,
        AppError::Database(_) | AppError::Storage(_) | AppError::Internal(_) => "Error interno"@,
    }
}

pub open spec fn app_error_message(e: AppError) -> Seq<char> {
    match e {
        AppError::Unauthorized(m) => m@,
        AppError::NotFound(m) => m@,
        AppError::Conflict(m) => m@,
        AppError::Validation(m) => m@,
        AppError::RateLimited(m) => m@,
        AppError::Database(m) => m@,
        AppError::Storage(m) => m@,
        AppError::Internal(m) => m@,
    }
}

/// The detail that a client is shown: the message itself, except for server errors, whose
/// cause stays in the logs.
pub open spec fn public_detail(e: AppError) -> Seq<char> {
    if app_error_status(e) >= 500 {
        "El servidor no pudo completar la solicitud."@
    } else {
        app_error_message(e)
    }
}

impl AppError {
    /// The machine-readable code of the error.
    pub fn code(&self) -> (c: &'static str)
        ensures
            c@ == app_error_code(*self),
    {
        match self {
            AppError::Unauthorized(_) => "unauthorized",
            AppError::NotFound(_) => "not_found",
            AppError::Conflict(_) => "conflict",
            AppError::Validation(_) => "validation_error",
            AppError::RateLimited(_) => "rate_limited",
            AppError::Database(_) => "database_error",
            AppError::Storage(_) => "storage_error",
            AppError::Internal(_) => "internal_error",
        }
    }

    /// The HTTP status code of the error.
    pub fn status(&self) -> (s: u16)
        ensures
            s == app_error_status(*self),
    {
        match self {
            AppError::Unauthorized(_) => 401,
            AppError::NotFound(_) => 404,
            AppError::Conflict(_) => 409,
            AppError::Validation(_) => 422,
            AppError::RateLimited(_) => 429,
            AppError::Database(_) | AppError::Storage(_) | AppError::Internal(_) => 500,
        }
    }

    /// The human-readable title of the error.
    pub fn title(&self) -> (t: &'static str)
        ensures
            t@ == app_error_title(*self),
    {
        match self {
            AppError::Unauthorized(_) => "Autenticación requerida",
            AppError::NotFound(_) => "Recurso no encontrado",
            AppError::Conflict(_) => "Conflicto de estado",
            AppError::Validation(_) => "Entrada inválida",
            AppError::RateLimited(_) => "Límite de uso alcanzado",
            AppError::Database(_) | AppError::Storage(_) | AppError::Internal(_) => "Error interno",
        }
    }

    /// The message carried by the error.
    pub fn message(&self) -> (m: &str)
        ensures
            m@ == app_error_message(*self),
    {
        match self {
            AppError::Unauthorized(m) => m.as_str(),
            AppError::NotFound(m) => m.as_str(),
            AppError::Conflict(m) => m.as_str(),
            AppError::Validation(m) => m.as_str(),
            AppError::RateLimited(m) => m.as_str(),
            AppError::Database(m) => m.as_str(),
            AppError::Storage(m) => m.as_str(),
            AppError::Internal(m) => m.as_str(),
        }
    }

    /// The problem document answered for the error under `request_id`.
    pub fn problem(&self, request_id: &str) -> (p: ProblemDetails)
        ensures
            p.problem_type@ == "https://forgequeue.dev/problems/"@ + app_error_code(*self),
            p.title@ == app_error_title(*self),
            p.status == app_error_status(*self),
            p.code@ == app_error_code(*self),
            p.detail@ == public_detail(*self),
            p.request_id@ == request_id@,
    {
        let status = self.status();
        let detail = if status >= 500 {
            owned("El servidor no pudo completar la solicitud.")
        } else {
            owned(self.message())
        };
        ProblemDetails {
            problem_type: concat2("https://forgequeue.dev/problems/", self.code()),
            title: owned(self.title()),
            status,
            code: owned(self.code()),
            detail,
            request_id: owned(request_id),
        }
    }
}

/// Why processing a job stopped.
#[derive(Debug)]
pub enum ProcessingError {
    Cancelled,
    LeaseLost,
    Invalid(String),
    Temporary(String),
}

pub open spec fn processing_error_code(e: ProcessingError) -> Seq<char> {
    match e {
        ProcessingError::Cancelled => "cancelled"@,
        ProcessingError::LeaseLost => "lease_lost"@,
        ProcessingError::Invalid(_) => "invalid_input"@,
        ProcessingError::Temporary(_) => "processing_failed"@,
    }
}

pub open spec fn processing_error_message(e: ProcessingError) -> Seq<char> {
    match e {
        ProcessingError::Cancelled => "processing was cancelled"@,
        ProcessingError::LeaseLost => "processing lease was lost"@,
        ProcessingError::Invalid(m) => m@,
        ProcessingError::Temporary(m) => m@,
    }
}

impl ProcessingError {
    /// The code recorded on the failed attempt.
    pub fn code(&self) -> (c: &'static str)
        ensures
            c@ == processing_error_code(*self),
    {
        match self {
            ProcessingError::Cancelled => "cancelled",
            ProcessingError::LeaseLost => "lease_lost",
            ProcessingError::Invalid(_) => "invalid_input",
            ProcessingError::Temporary(_) => "processing_failed",
        }
    }

    /// Whether another attempt may succeed: only temporary failures are retried.
    pub fn retryable(&self) -> (b: bool)
        ensures
            b == (*self is Temporary),
    {
        match self {
            ProcessingError::Temporary(_) => true,
            _ => false,
        }
    }

    /// The human-readable message of the failure.
    pub fn message(&self) -> (m: String)
        ensures
            m@ == processing_error_message(*self),
    {
        match self {
            ProcessingError::Cancelled => owned("processing was cancelled"),
            ProcessingError::LeaseLost => owned("processing lease was lost"),
            ProcessingError::Invalid(m) => m.clone(),
            ProcessingError::Temporary(m) => m.clone(),
        }
    }
}

/// Server errors never reveal their message to the client.
pub proof fn lemma_server_errors_are_opaque(e: AppError)
    ensures
        app_error_status(e) >= 500 ==> public_detail(e) == "El servidor no pudo completar la solicitud."@,
        app_error_status(e) < 500 ==> public_detail(e) == app_error_message(e),
{
}

} // verus!
