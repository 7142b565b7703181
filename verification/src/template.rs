//! The fixed notebook document. Every notebook file carries this exact text:
//! a minimal valid document with one empty code cell and Python 3 kernel
//! metadata. There is no templating; the document is a constant.

use vstd::prelude::*;

verus! {

/// The document body written for every notebook, byte for byte.
pub const NOTEBOOK_TEMPLATE: &'static str = "{\n \"cells\": [\n  {\n   \"cell_type\": \"code\",\n   \"execution_count\": null,\n   \"metadata\": {},\n   \"outputs\": [],\n   \"source\": []\n  }\n ],\n \"metadata\": {\n  \"kernelspec\": {\n   \"display_name\": \"Python 3\",\n   \"language\": \"python\",\n   \"name\": \"python3\"\n  },\n  \"language_info\": {\n   \"name\": \"python\",\n   \"version\": \"3\"\n  }\n },\n \"nbformat\": 4,\n \"nbformat_minor\": 2\n}\n";

/// The template as an owned string, equal to the constant.
pub fn notebook_template() -> (r: String)
    ensures
        r@ == NOTEBOOK_TEMPLATE@,
{
    NOTEBOOK_TEMPLATE.to_owned()
}

} // verus!
