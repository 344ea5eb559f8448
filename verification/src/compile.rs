//! Compile requests and compile tasks.
//!
//! A compile request carries the model bytes, the target device spec, an
//! optional compiler config and the intermediate representation to produce.
//! A compile task is the server's view of a submitted job; its phase is the
//! only field the client ever interprets.

use vstd::prelude::*;

use crate::text::str_eq;
use crate::ClientError;

verus! {

/// serde_json's dynamic JSON value.  The device spec and the compiler config
/// travel through the request types as such values; the client never looks
/// inside them, it only serializes them into the multipart form.
#[verifier::external_type_specification]
#[verifier::external_body]
pub struct ExValue(serde_json::Value);

/// The intermediate representations a compile task can target.
#[derive(Clone, Copy, Debug, PartialEq, Eq, Structural)]
pub enum TargetIr {
    Dfg,
    Ldfg,
    Cdfg,
    Gir,
    Lir,
    Enf,
}

/// The lower-case wire name of a representation.
pub open spec fn ir_name(ir: TargetIr) -> Seq<char> {
    match ir {
        TargetIr::Dfg => "dfg"@,
        TargetIr::Ldfg => "ldfg"@,
        TargetIr::Cdfg => "cdfg"@,
        TargetIr::Gir => "gir"@,
        TargetIr::Lir => "lir"@,
        TargetIr::Enf => "enf"@,
    }
}

/// Which representation a lower-case name denotes.
pub open spec fn ir_of_name(s: Seq<char>) -> Option<TargetIr> {
    if s == "dfg"@ {
        Some(TargetIr::Dfg)
    } else if s == "ldfg"@ {
        Some(TargetIr::Ldfg)
    } else if s == "cdfg"@ {
        Some(TargetIr::Cdfg)
    } else if s == "gir"@ {
        Some(TargetIr::Gir)
    } else if s == "lir"@ {
        Some(TargetIr::Lir)
    } else if s == "enf"@ {
        Some(TargetIr::Enf)
    } else {
        None
    }
}

/// Whether every character of the text is an ASCII lower-case letter.
pub open spec fn ascii_lower(s: Seq<char>) -> bool {
    forall|i: int| 0 <= i < s.len() ==> 'a' as u32 <= (#[trigger] s[i]) as u32 <= 'z' as u32
}

/// What `str::to_lowercase` returns; the text depends on the characters alone.
pub uninterp spec fn lower_of(s: Seq<char>) -> Seq<char>;

/// Relies on str::to_lowercase from std: the result is a pure function of the
/// input characters, named `lower_of` in contracts.  The Unicode lowercase
/// mapping leaves ASCII lower-case letters unchanged, so a text made of them
/// is its own lowercase.
#[verifier::external_body]
fn lowercase(s: &str) -> (r: String)
    ensures
        r@ == lower_of(s@),
        ascii_lower(s@) ==> r@ == s@,
{
    s.to_lowercase()
}

impl TargetIr {
    /// The wire name of this representation.
    pub fn as_str(&self) -> (r: &'static str)
        ensures
            r@ == ir_name(*self),
    {
        match self {
            TargetIr::Dfg => "dfg",
            TargetIr::Ldfg => "ldfg",
            TargetIr::Cdfg => "cdfg",
            TargetIr::Gir => "gir",
            TargetIr::Lir => "lir",
            TargetIr::Enf => "enf",
        }
    }

    /// Parses a representation name, ignoring case; any other text is an
    /// `InvalidTargetIr` error carrying the offending input.  Printing a
    /// representation and parsing it back is the identity: for every `ir`,
    /// the name `ir_name(ir)` parses to `Ok(ir)`.
    pub fn from_str(s: &str) -> (r: Result<TargetIr, ClientError>)
        ensures
            (ir_of_name(lower_of(s@)) matches Some(ir) ==> r == Result::<TargetIr,
                ClientError,
            >::Ok(ir)),
            (ir_of_name(lower_of(s@)) is None ==> (r matches Err(e)
                && e matches ClientError::InvalidTargetIr(t) && t@ == s@)),
            forall|ir: TargetIr| s@ == ir_name(ir) ==> r == Result::<TargetIr, ClientError>::Ok(
                ir,
            ),
    {
        let low = lowercase(s);
        proof {
            reveal_strlit("dfg");
            reveal_strlit("ldfg");
            reveal_strlit("cdfg");
            reveal_strlit("gir");
            reveal_strlit("lir");
            reveal_strlit("enf");
            assert(ascii_lower("dfg"@));
            assert(ascii_lower("ldfg"@));
            assert(ascii_lower("cdfg"@));
            assert(ascii_lower("gir"@));
            assert(ascii_lower("lir"@));
            assert(ascii_lower("enf"@));
            assert("dfg"@[0] == 'd' && "gir"@[0] == 'g' && "lir"@[0] == 'l' && "enf"@[0] == 'e');
            assert("ldfg"@[0] == 'l' && "cdfg"@[0] == 'c');
            assert("dfg"@ != "gir"@ && "dfg"@ != "lir"@ && "dfg"@ != "enf"@);
            assert("gir"@ != "lir"@ && "gir"@ != "enf"@ && "lir"@ != "enf"@);
            assert("ldfg"@ != "cdfg"@);
        }
        let l: &str = low.as_str();
        let r: Result<TargetIr, ClientError> = if str_eq(l, "dfg") {
            Ok(TargetIr::Dfg)
        } else if str_eq(l, "ldfg") {
            Ok(TargetIr::Ldfg)
        } else if str_eq(l, "cdfg") {
            Ok(TargetIr::Cdfg)
        } else if str_eq(l, "gir") {
            Ok(TargetIr::Gir)
        } else if str_eq(l, "lir") {
            Ok(TargetIr::Lir)
        } else if str_eq(l, "enf") {
            Ok(TargetIr::Enf)
        } else {
            Err(ClientError::InvalidTargetIr(s.to_owned()))
        };
        proof {
            assert forall|ir: TargetIr| s@ == ir_name(ir) implies r == Result::<TargetIr,
                ClientError,
            >::Ok(ir) by {
                match ir {
                    TargetIr::Dfg => {
                        assert(ascii_lower(s@));
                        assert(low@ == "dfg"@);
                    },
                    TargetIr::Ldfg => {
                        assert(ascii_lower(s@));
                        assert(low@ == "ldfg"@);
                    },
                    TargetIr::Cdfg => {
                        assert(ascii_lower(s@));
                        assert(low@ == "cdfg"@);
                    },
                    TargetIr::Gir => {
                        assert(ascii_lower(s@));
                        assert(low@ == "gir"@);
                    },
                    TargetIr::Lir => {
                        assert(ascii_lower(s@));
                        assert(low@ == "lir"@);
                    },
                    TargetIr::Enf => {
                        assert(ascii_lower(s@));
                        assert(low@ == "enf"@);
                    },
                }
            }
        }
        r
    }
}

/// A model compilation request.  Immutable once submitted; built with the
/// mandatory device spec and source bytes, then refined by the chained
/// setters below.
pub struct CompileRequest {
    pub target_npu_spec: serde_json::Value,
    pub compiler_config: Option<serde_json::Value>,
    pub target_ir: TargetIr,
    pub filename: String,
    pub source: Vec<u8>,
}

impl CompileRequest {
    /// Builds a request with the defaults: no compiler config, the `enf`
    /// representation, and `noname` as the file name.
    pub fn new(target_npu_spec: serde_json::Value, source: Vec<u8>) -> (r: CompileRequest)
        ensures
            r.target_npu_spec == target_npu_spec,
            r.compiler_config is None,
            r.target_ir == TargetIr::Enf,
            r.filename@ == "noname"@,
            r.source == source,
    {
        CompileRequest {
            target_npu_spec,
            compiler_config: None,
            target_ir: TargetIr::Enf,
            filename: "noname".to_owned(),
            source,
        }
    }

    /// Replaces the target representation.
    pub fn target_ir(self, target_format: TargetIr) -> (r: CompileRequest)
        ensures
            r == (CompileRequest { target_ir: target_format, ..self }),
    {
        CompileRequest { target_ir: target_format, ..self }
    }

    /// Attaches a compiler config.
    pub fn compile_config(self, compile_config: serde_json::Value) -> (r: CompileRequest)
        ensures
            r == (CompileRequest { compiler_config: Some(compile_config), ..self }),
    {
        CompileRequest { compiler_config: Some(compile_config), ..self }
    }

    /// Replaces the file name sent with the source bytes.
    pub fn filename(self, filename: &str) -> (r: CompileRequest)
        ensures
            r.filename@ == filename@,
            r.target_npu_spec == self.target_npu_spec,
            r.compiler_config == self.compiler_config,
            r.target_ir == self.target_ir,
            r.source == self.source,
    {
        CompileRequest { filename: filename.to_owned(), ..self }
    }
}

/// The phase of a compile task as the server reports it.
#[derive(Clone, Copy, Debug, PartialEq, Eq, Structural)]
pub enum CompileTaskPhase {
    Pending,
    Running,
    Succeeded,
    Failed,
}

impl CompileTaskPhase {
    /// Whether the phase is terminal.
    pub open spec fn spec_is_completed(&self) -> bool {
        *self is Succeeded || *self is Failed
    }

    /// Whether the task has reached a terminal phase; only `Succeeded` and
    /// `Failed` are terminal, `Pending` and `Running` are not.
    pub fn is_completed(&self) -> (r: bool)
        ensures
            r == self.spec_is_completed(),
    {
        *self == CompileTaskPhase::Succeeded || *self == CompileTaskPhase::Failed
    }
}

/// A compile task as the server reports it.  The client never mutates a task
/// locally: it always replaces its copy with a freshly fetched one, and only
/// the phase drives its decisions.  The progress fraction is kept as the raw
/// bit pattern of the reported 32-bit float, since the client never
/// interprets it.
pub struct CompileTask {
    pub version: i32,
    pub task_id: String,
    pub phase: CompileTaskPhase,
    pub submit_time: i64,
    pub start_time: Option<i64>,
    pub finish_time: Option<i64>,
    pub progress_bits: u32,
    pub error_message: Option<String>,
}

} // verus!
