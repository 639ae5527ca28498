use vstd::prelude::*;

verus! {

/// Why a present field value could not be decoded.
#[derive(Debug, Clone, Copy, PartialEq, Eq, Structural)]
pub enum DecodeReason {
    /// The value does not have the number of characters the field needs.
    InvalidLength { expected: usize, found: usize },
    /// The character at `position` is not a hexadecimal digit.
    InvalidHexDigit { position: usize },
    /// The value is not a non-negative decimal integer that fits the field.
    NotAnInteger,
    /// The integer is not one of the codes of the field's enumeration.
    UnknownCode { value: u64 },
    /// The value names no zone of the IANA time-zone database.
    UnknownTimezone,
    /// The value is not a well-formed BCP-47 language tag.
    MalformedLanguageTag,
}

/// A field of one record that could not be decoded.
#[derive(Debug, PartialEq, Eq)]
pub enum FieldError {
    /// A required (or conditionally required and applicable) field had no value.
    MissingRequiredField { record_type: String, field: String },
    /// A value was present but its decoder refused it.
    InvalidFieldValue { record_type: String, field: String, raw: String, reason: DecodeReason },
}

/// A field error as plain text values.
pub enum FieldErrorView {
    Missing { record_type: Seq<char>, field: Seq<char> },
    Invalid { record_type: Seq<char>, field: Seq<char>, raw: Seq<char>, reason: DecodeReason },
}

impl View for FieldError {
    type V = FieldErrorView;

    open spec fn view(&self) -> FieldErrorView {
        match self {
            FieldError::MissingRequiredField { record_type, field } => FieldErrorView::Missing {
                record_type: record_type@,
                field: field@,
            },
            FieldError::InvalidFieldValue { record_type, field, raw, reason } =>
                FieldErrorView::Invalid {
                record_type: record_type@,
                field: field@,
                raw: raw@,
                reason: *reason,
            },
        }
    }
}

/// A row of a table that could not be decoded; `row_number` counts data rows from 1.
#[derive(Debug, PartialEq, Eq)]
pub struct RowDecodeFailed {
    pub file_name: String,
    pub row_number: usize,
    pub cause: FieldError,
}

/// A row error as plain values.
pub struct RowErrorView {
    pub file_name: Seq<char>,
    pub row_number: int,
    pub cause: FieldErrorView,
}

impl View for RowDecodeFailed {
    type V = RowErrorView;

    open spec fn view(&self) -> RowErrorView {
        RowErrorView {
            file_name: self.file_name@,
            row_number: self.row_number as int,
            cause: self.cause@,
        }
    }
}

/// Why a whole feed could not be loaded.
#[derive(Debug, PartialEq, Eq)]
pub enum LoadError {
    /// Mandatory files were not supplied: all of them, sorted by name.
    MissingMandatoryFiles { file_names: Vec<String> },
    /// A supplied file could not be split into rows of fields.
    FileUnreadable { file_name: String },
    /// A supplied file holds a row that does not decode.
    FileDecodeFailed { file_name: String, cause: RowDecodeFailed },
}

/// A load error as plain values.
pub enum LoadErrorView {
    MissingMandatoryFiles { file_names: Seq<Seq<char>> },
    FileUnreadable { file_name: Seq<char> },
    FileDecodeFailed { file_name: Seq<char>, cause: RowErrorView },
}

impl View for LoadError {
    type V = LoadErrorView;

    open spec fn view(&self) -> LoadErrorView {
        match self {
            LoadError::MissingMandatoryFiles { file_names } =>
                LoadErrorView::MissingMandatoryFiles { file_names: file_names.deep_view() },
            LoadError::FileUnreadable { file_name } => LoadErrorView::FileUnreadable {
                file_name: file_name@,
            },
            LoadError::FileDecodeFailed { file_name, cause } => LoadErrorView::FileDecodeFailed {
                file_name: file_name@,
                cause: cause@,
            },
        }
    }
}

} // verus!
