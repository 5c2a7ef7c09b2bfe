//! Status and error message strings.

use vstd::prelude::*;

verus! {

pub const EMPTY: &'static str = "";
pub const OK: &'static str = "ok";
pub const STRUCT_IS_EMPTY: &'static str = "Structure is empty";
pub const INVALID_PIXEL_COORDINATES: &'static str = "Invalid pixel coordinates";
pub const PARENT_NOT_EXISTS_OR_UNWRITABLE: &'static str = "Parent does not exist or cannot be written";
pub const FILE_NOT_FOUND: &'static str = "File not found";
pub const ARRAY_SIZE_MISMATCH: &'static str = "Array size mismatch";
pub const NOT_IMPLEMENTED: &'static str = "Not yet implemented";
pub const DIMENSIONS_DO_NOT_MATCH_VECTOR_LENGTH: &'static str = "Image dimensions do not match supplied vector length";
pub const ERROR_PARSING_JSON: &'static str = "Error parsing JSON";
pub const INVALID_ENUM_VALUE: &'static str = "Invalid enum value";
pub const INVALID_RAW_VALUE: &'static str = "Invalid raw image value";
pub const INVALID_FLOAT_VALUE: &'static str = "Invalid float value";
pub const UNSUPPORTED_INSTRUMENT: &'static str = "Unsupported instrument";
pub const EVEN_NUMBER_REQUIRED: &'static str = "Value error: Even number required";
pub const REMOTE_SERVER_ERROR: &'static str = "Remote server error";
pub const YES: &'static str = "Yes";
pub const NO: &'static str = "No";
pub const DOWNLOADING: &'static str = "Downloading";
pub const INVALID_CALIBRATION_FILE_ID: &'static str = "Invalid calibration file";

} // verus!
