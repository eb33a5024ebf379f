//! Process bridge and embedded-resource provisioning for a PDF-to-spreadsheet
//! desktop tool: which bundled assets to extract and when, where the interpreter
//! and the processing script are found, and how one run of the external script
//! is judged.
use vstd::prelude::*;

pub mod bridge;
pub mod commands;
pub mod extract;
pub mod model;
pub mod resolve;
pub mod text;

pub use bridge::{check_script, classify_document, classify_output, BridgeError, IoStage};
pub use commands::{check_python, export_request, parse_pdf_result, parse_request, test_command};
pub use extract::{
    asset_key, dir_prefix, extract_dir_to_temp, init_embedded_resources, plan_extraction,
    ExtractStep, ExtractionError, StartupPlan,
};
pub use model::{BridgeRequest, OrderItem, ParseResult, PdfInfo};
pub use resolve::{
    get_processor_path, get_python_path, processor_candidates, python_candidates, Base, Candidate,
    Resolution,
};

verus! {

} // verus!
