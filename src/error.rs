//! Application errors

use vstd::prelude::*;

verus! {

/// User visible errors.
#[derive(Debug, Clone, Copy, PartialEq, Eq, Structural)]
pub enum AppError {
    Duh,
    FmtError,
    SDError,
    UsbSerialError,
    UartSerialError,
    DisplayError,
    ParseError,
    ProjectFileError,
}

/// The text shown for an error: the variant's name.
pub open spec fn error_name(e: AppError) -> &'static str {
    match e {
        AppError::Duh => "Duh",
        AppError::FmtError => "FmtError",
        AppError::SDError => "SDError",
        AppError::UsbSerialError => "UsbSerialError",
        AppError::UartSerialError => "UartSerialError",
        AppError::DisplayError => "DisplayError",
        AppError::ParseError => "ParseError",
        AppError::ProjectFileError => "ProjectFileError",
    }
}

impl AppError {
    /// Short text shown on the display for this error.
    pub fn name(&self) -> (r: &'static str)
        ensures
            r == error_name(*self),
    {
        match self {
            AppError::Duh => "Duh",
            AppError::FmtError => "FmtError",
            AppError::SDError => "SDError",
            AppError::UsbSerialError => "UsbSerialError",
            AppError::UartSerialError => "UartSerialError",
            AppError::DisplayError => "DisplayError",
            AppError::ParseError => "ParseError",
            AppError::ProjectFileError => "ProjectFileError",
        }
    }
}

} // verus!
