//! The error taxonomy of the safety layer.
//!
//! The engine reports an abort as a bare integer code.  `QhErrorKind`
//! classifies such a code: the finitely many documented codes map to named
//! variants, every other integer is kept verbatim in an `Other` variant, so
//! the classification is total and loses nothing.  `QhError` is the
//! structured record the error trap assembles from a code, the drained
//! diagnostic text and snapshots of the nodes the engine was processing.

use vstd::prelude::*;

use crate::views::{Face, Ridge, Vertex};

verus! {

/// The classified kind of an engine abort.
///
/// Each named variant stands for one documented abort code of the engine;
/// `Other` carries any code outside that set unchanged.
#[derive(Clone, Copy, Debug, PartialEq, Eq, Structural)]
pub enum QhErrorKind {
    /// Abort code 1: the input was rejected.
    Input,
    /// Abort code 2: the input was singular (degenerate).
    Singular,
    /// Abort code 3: a precision problem stopped the computation.
    Precision,
    /// Abort code 4: the engine ran out of memory.
    Memory,
    /// Abort code 5: an internal engine defect was detected.
    Engine,
    /// Abort code 6: an unclassified engine failure.
    Unclassified,
    /// Abort code 7: the output topology was inconsistent.
    Topology,
    /// Abort code 8: a facet grew too wide.
    WideFacet,
    /// Abort code 9: an abort raised from the engine's debugging code.
    Debugging,
    /// An abort code outside the documented set, kept verbatim.
    Other(i32),
}

/// Whether `code` belongs to the documented set of abort codes.
pub open spec fn is_known_code(code: i32) -> bool {
    1 <= code <= 9
}

/// The classification of an abort code: total over all integers.
pub open spec fn kind_of_code(code: i32) -> QhErrorKind {
    if code == 1 {
        QhErrorKind::Input
    } else if code == 2 {
        QhErrorKind::Singular
    } else if code == 3 {
        QhErrorKind::Precision
    } else if code == 4 {
        QhErrorKind::Memory
    } else if code == 5 {
        QhErrorKind::Engine
    } else if code == 6 {
        QhErrorKind::Unclassified
    } else if code == 7 {
        QhErrorKind::Topology
    } else if code == 8 {
        QhErrorKind::WideFacet
    } else if code == 9 {
        QhErrorKind::Debugging
    } else {
        QhErrorKind::Other(code)
    }
}

/// The abort code a kind stands for.
pub open spec fn code_of_kind(kind: QhErrorKind) -> int {
    match kind {
        QhErrorKind::Input => 1,
        QhErrorKind::Singular => 2,
        QhErrorKind::Precision => 3,
        QhErrorKind::Memory => 4,
        QhErrorKind::Engine => 5,
        QhErrorKind::Unclassified => 6,
        QhErrorKind::Topology => 7,
        QhErrorKind::WideFacet => 8,
        QhErrorKind::Debugging => 9,
        QhErrorKind::Other(code) => code as int,
    }
}

impl QhErrorKind {
    /// Classify an abort code.  Total: every integer yields a kind, and no
    /// information is lost (see [`lemma_code_round_trip`]).
    pub fn from_code(code: i32) -> (r: Self)
        ensures
            r == kind_of_code(code),
    {
        match code {
            1 => QhErrorKind::Input,
            2 => QhErrorKind::Singular,
            3 => QhErrorKind::Precision,
            4 => QhErrorKind::Memory,
            5 => QhErrorKind::Engine,
            6 => QhErrorKind::Unclassified,
            7 => QhErrorKind::Topology,
            8 => QhErrorKind::WideFacet,
            9 => QhErrorKind::Debugging,
            _ => QhErrorKind::Other(code),
        }
    }

    /// The abort code this kind stands for.
    pub fn error_code(&self) -> (r: i32)
        ensures
            r as int == code_of_kind(*self),
    {
        match self {
            QhErrorKind::Input => 1,
            QhErrorKind::Singular => 2,
            QhErrorKind::Precision => 3,
            QhErrorKind::Memory => 4,
            QhErrorKind::Engine => 5,
            QhErrorKind::Unclassified => 6,
            QhErrorKind::Topology => 7,
            QhErrorKind::WideFacet => 8,
            QhErrorKind::Debugging => 9,
            QhErrorKind::Other(code) => *code,
        }
    }
}

/// Classification loses nothing: the code of the classified kind is the code
/// that was classified, and every code outside the documented set lands in
/// `Other`, carrying that code.
pub proof fn lemma_code_round_trip(code: i32)
    ensures
        code_of_kind(kind_of_code(code)) == code as int,
        !is_known_code(code) ==> kind_of_code(code) == QhErrorKind::Other(code),
{
}

/// The structured record of one engine abort: its classified kind, the
/// diagnostic text drained from the capture channel, and snapshots of the
/// nodes the engine was processing when it aborted.  The snapshots are views
/// into the engine's storage and are only valid while that storage lives.
#[derive(Clone, Debug)]
pub struct QhError {
    /// The classified abort kind.
    pub kind: QhErrorKind,
    /// The diagnostic text the engine wrote before aborting, if any.
    pub error_message: Option<String>,
    /// The face the engine was processing, if it tracked one.
    pub face: Option<Face>,
    /// The ridge the engine was processing, if it tracked one.
    pub ridge: Option<Ridge>,
    /// The vertex the engine was processing, if it tracked one.
    pub vertex: Option<Vertex>,
}

impl QhError {
    /// Assemble the record of one abort from what the error trap gathered:
    /// the raw abort code, the drained diagnostic text, and the engine's
    /// tracked nodes, each wrapped only if present.
    pub fn from_abort(
        code: i32,
        error_message: Option<String>,
        face: Option<Face>,
        ridge: Option<Ridge>,
        vertex: Option<Vertex>,
    ) -> (r: QhError)
        ensures
            r.kind == kind_of_code(code),
            r.error_message == error_message,
            r.face == face,
            r.ridge == ridge,
            r.vertex == vertex,
    {
        QhError { kind: QhErrorKind::from_code(code), error_message, face, ridge, vertex }
    }

    /// Whether the record still carries node snapshots.
    pub fn has_context(&self) -> (r: bool)
        ensures
            r == (self.face is Some || self.ridge is Some || self.vertex is Some),
    {
        self.face.is_some() || self.ridge.is_some() || self.vertex.is_some()
    }

    /// Detach the record from the engine's storage so it can outlive it.
    ///
    /// The node snapshots cannot outlive the storage they point into, so this
    /// conversion is lossy by design: every attached snapshot is discarded,
    /// and for each one a notice is returned so the caller can report the
    /// loss.  Kind and diagnostic text are kept unchanged.
    pub fn into_static(self) -> (r: (QhError, Vec<String>))
        ensures
            r.0.kind == self.kind,
            r.0.error_message == self.error_message,
            r.0.face is None,
            r.0.ridge is None,
            r.0.vertex is None,
            r.1@.len() == discarded_count(self),
    {
        let QhError { kind, error_message, face, ridge, vertex } = self;
        let mut notices: Vec<String> = Vec::new();
        if face.is_some() {
            notices.push("during conversion to an owned error, a face snapshot was discarded".to_string());
        }
        if ridge.is_some() {
            notices.push("during conversion to an owned error, a ridge snapshot was discarded".to_string());
        }
        if vertex.is_some() {
            notices.push("during conversion to an owned error, a vertex snapshot was discarded".to_string());
        }
        (QhError { kind, error_message, face: None, ridge: None, vertex: None }, notices)
    }

}

/// How many node snapshots a record carries.
pub open spec fn discarded_count(e: QhError) -> int {
    (if e.face is Some { 1int } else { 0int })
    + (if e.ridge is Some { 1int } else { 0int })
    + (if e.vertex is Some { 1int } else { 0int })
}

} // verus!
