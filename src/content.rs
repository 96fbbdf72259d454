use vstd::prelude::*;

verus! {

/// Path of the execution endpoint, relative to the page's origin.
pub const URL: &'static str = "/api/code";

/// How long a banner stays up before every banner is dismissed, in milliseconds.
pub const DISMISS_DELAY_MS: u64 = 3000;

/// Text of the error reported when the endpoint answers with an empty body.
pub const STATUS_ERROR: &'static str = "Status error";

/// Sample program that the editor starts with.
pub const PLACEHOLDER: &'static str = "  \n\tlet identity = fn(x) { x; }; identity(5);\n    ";

/// Static help panel: sample programs with the replies they produce.
pub const EXAMPLE_CODE: &'static str = "\n    Code:\n\tlet identity = fn(x) { x; }; identity(5);\n    Response: 5\n\n    Code:\n\tlet identity = fn(x) { return x; }; identity(5);\n    Response: 5\n    \n    Code: \n\tlet double = fn(x) { x * 2; }; double(5);\n    Response: 10\n\n    Code:\n\tlet add = fn(x, y) { x + y; }; add(5, 5);\n    Response: 10\n\n    Code:\n\tlet add = fn(x, y) { x + y; }; add(5 + 5, add(5, 5));\n    Response: 20\n\n    Code:\n\tfn(x) { x; }(5)\n    Response: 5\n";

} // verus!
