//! What is kept of artifacts and feedback, and under which names.

use vstd::prelude::*;
use crate::digest::{hex_digest, sha256_hex};
use crate::text::{bytes_len, cat2, cat3, cat5, chars_of, slice_string, Duplicate};
use crate::types::time::{Timestamp, TimestampView};
use crate::workflows::model::{
    ArtifactRecord, ArtifactRecordView, ArtifactStoreConfig, FeedbackRecord, FeedbackRecordView,
    WorkflowError, WorkflowErrorView,
};
use vstd::utf8::encode_utf8;

verus! {

/// Whether a character is kept in the name of a file.
pub open spec fn name_char(c: char) -> bool {
    ||| 'a' <= c <= 'z'
    ||| 'A' <= c <= 'Z'
    ||| '0' <= c <= '9'
    ||| c == '-'
    ||| c == '_'
    ||| c == '.'
}

/// A name in which every character that is not kept has become `_`.
pub open spec fn cleaned(s: Seq<char>) -> Seq<char> {
    s.map_values(
        |c: char|
            if name_char(c) {
                c
            } else {
                '_'
            },
    )
}

/// A text as one segment of a path.
pub open spec fn path_segment(s: Seq<char>) -> Seq<char> {
    if s.len() == 0 {
        "item"@
    } else {
        cleaned(s)
    }
}

pub fn sanitize_path_segment(input: &str) -> (r: String)
    ensures
        r@ == path_segment(input@),
{
    let v = chars_of(input);
    if v.len() == 0 {
        return "item".to_owned();
    }
    let mut out = String::new();
    let mut i: usize = 0;
    assert(out@ =~= cleaned(v@).subrange(0, 0));
    while i < v.len()
        invariant
            i <= v@.len(),
            out@ == cleaned(v@).subrange(0, i as int),
        decreases v.len() - i,
    {
        let c = v[i];
        let keep = ('a' <= c && c <= 'z') || ('A' <= c && c <= 'Z') || ('0' <= c && c <= '9')
            || c == '-' || c == '_' || c == '.';
        out.push(
            if keep {
                c
            } else {
                '_'
            },
        );
        i = i + 1;
        assert(out@ =~= cleaned(v@).subrange(0, i as int));
    }
    assert(cleaned(v@).subrange(0, i as int) =~= cleaned(v@));
    out
}

/// A segment of a path is never empty, and holds neither a separator nor any other
/// character that is not kept in names.
pub proof fn path_segment_is_a_name(s: Seq<char>)
    ensures
        path_segment(s).len() > 0,
        forall|i: int| 0 <= i < path_segment(s).len() ==> name_char(#[trigger] path_segment(s)[i]),
{
    reveal_strlit("item");
}

/// The first characters of a digest, as they are used in names.
pub open spec fn short(hex: Seq<char>) -> Seq<char> {
    if hex.len() <= 12 {
        hex
    } else {
        hex.subrange(0, 12)
    }
}

pub fn short_hash(hex: &str) -> (r: String)
    ensures
        r@ == short(hex@),
{
    let v = chars_of(hex);
    if v.len() <= 12 {
        return hex.to_owned();
    }
    slice_string(&v, 0, 12)
}

/// What is asked to be kept of an artifact.
#[derive(Debug, Clone, Copy)]
pub struct PersistArtifactRequest<'a> {
    pub run_id: &'a str,
    pub artifact_ref: &'a str,
    pub artifact_kind: &'a str,
    pub content: &'a str,
}

/// What is asked to be kept of feedback.
#[derive(Debug, Clone, Copy)]
pub struct PersistFeedbackRequest<'a> {
    pub run_id: &'a str,
    pub step_id: &'a str,
    pub feedback_key: &'a str,
    pub feedback: &'a str,
}

/// The hexadecimal digest of a text.
pub open spec fn text_digest(s: Seq<char>) -> Seq<char> {
    hex_digest(encode_utf8(s))
}

/// The record of an artifact: its content is addressed by its digest.
pub open spec fn artifact_record(
    max_bytes: u64,
    run_id: Seq<char>,
    artifact_ref: Seq<char>,
    artifact_kind: Seq<char>,
    content: Seq<char>,
    created_at: TimestampView,
) -> Result<ArtifactRecordView, WorkflowErrorView> {
    if bytes_len(content) > max_bytes {
        Err(
            WorkflowErrorView::ArtifactTooLarge {
                actual_bytes: bytes_len(content) as u64,
                max_bytes,
            },
        )
    } else {
        Ok(
            ArtifactRecordView {
                run_id,
                artifact_ref,
                artifact_kind,
                sha256: text_digest(content),
                bytes: bytes_len(content) as u64,
                created_at,
                object_rel_path: "objects/"@ + text_digest(content) + ".txt"@,
                metadata_rel_path: "runs/"@ + run_id + "/artifacts/"@ + path_segment(artifact_ref)
                    + ".meta.json"@,
            },
        )
    }
}

/// The record of feedback.
pub open spec fn feedback_record(
    max_bytes: u64,
    run_id: Seq<char>,
    step_id: Seq<char>,
    feedback_key: Seq<char>,
    feedback: Seq<char>,
    created_at: TimestampView,
) -> Result<FeedbackRecordView, WorkflowErrorView> {
    if bytes_len(feedback) > max_bytes {
        Err(
            WorkflowErrorView::FeedbackTooLarge {
                actual_bytes: bytes_len(feedback) as u64,
                max_bytes,
            },
        )
    } else {
        let stem = "runs/"@ + run_id + "/feedback/"@ + path_segment(step_id) + "-"@ + short(
            text_digest(feedback),
        );
        Ok(
            FeedbackRecordView {
                run_id,
                step_id,
                feedback_key,
                sha256: text_digest(feedback),
                bytes: bytes_len(feedback) as u64,
                created_at,
                content_rel_path: stem + ".txt"@,
                metadata_rel_path: stem + ".meta.json"@,
            },
        )
    }
}

/// A store of artifacts and feedback.
#[derive(Debug)]
pub struct ArtifactStore {
    pub cfg: ArtifactStoreConfig,
}

impl ArtifactStore {
    pub fn new(cfg: ArtifactStoreConfig) -> (r: Self)
        ensures
            r.cfg == cfg,
    {
        ArtifactStore { cfg }
    }

    pub fn config(&self) -> (r: &ArtifactStoreConfig)
        ensures
            *r == self.cfg,
    {
        &self.cfg
    }

    /// The record under which an artifact is to be kept. The content goes to the
    /// object path, unless it is there already; the record to the metadata path.
    pub fn persist_artifact(&self, req: PersistArtifactRequest<'_>, created_at: &Timestamp) -> (r:
        Result<ArtifactRecord, WorkflowError>)
        ensures
            (match r {
                Ok(rec) => Ok(rec@),
                Err(e) => Err(e@),
            }) == artifact_record(
                self.cfg.max_artifact_bytes,
                req.run_id@,
                req.artifact_ref@,
                req.artifact_kind@,
                req.content@,
                created_at@,
            ),
    {
        let bytes = req.content.as_bytes();
        let n: u64 = bytes.len() as u64;
        if n > self.cfg.max_artifact_bytes {
            return Err(
                WorkflowError::ArtifactTooLarge {
                    actual_bytes: n,
                    max_bytes: self.cfg.max_artifact_bytes,
                },
            );
        }
        let sha256 = sha256_hex(bytes);
        let segment = sanitize_path_segment(req.artifact_ref);
        Ok(
            ArtifactRecord {
                run_id: req.run_id.to_owned(),
                artifact_ref: req.artifact_ref.to_owned(),
                artifact_kind: req.artifact_kind.to_owned(),
                object_rel_path: cat3("objects/", sha256.as_str(), ".txt"),
                metadata_rel_path: cat5(
                    "runs/",
                    req.run_id,
                    "/artifacts/",
                    segment.as_str(),
                    ".meta.json",
                ),
                sha256,
                bytes: n,
                created_at: created_at.dup(),
            },
        )
    }

    /// The record under which feedback is to be kept. The feedback goes to the
    /// content path, the record to the metadata path.
    pub fn persist_feedback(&self, req: PersistFeedbackRequest<'_>, created_at: &Timestamp) -> (r:
        Result<FeedbackRecord, WorkflowError>)
        ensures
            (match r {
                Ok(rec) => Ok(rec@),
                Err(e) => Err(e@),
            }) == feedback_record(
                self.cfg.max_feedback_bytes,
                req.run_id@,
                req.step_id@,
                req.feedback_key@,
                req.feedback@,
                created_at@,
            ),
    {
        let bytes = req.feedback.as_bytes();
        let n: u64 = bytes.len() as u64;
        if n > self.cfg.max_feedback_bytes {
            return Err(
                WorkflowError::FeedbackTooLarge {
                    actual_bytes: n,
                    max_bytes: self.cfg.max_feedback_bytes,
                },
            );
        }
        let sha256 = sha256_hex(bytes);
        let segment = sanitize_path_segment(req.step_id);
        let mark = short_hash(sha256.as_str());
        let mut stem = cat5("runs/", req.run_id, "/feedback/", segment.as_str(), "-");
        stem.append(mark.as_str());
        Ok(
            FeedbackRecord {
                run_id: req.run_id.to_owned(),
                step_id: req.step_id.to_owned(),
                feedback_key: req.feedback_key.to_owned(),
                sha256,
                bytes: n,
                created_at: created_at.dup(),
                content_rel_path: cat2(stem.as_str(), ".txt"),
                metadata_rel_path: cat2(stem.as_str(), ".meta.json"),
            },
        )
    }
}

/// Two artifacts with the same content share one object.
pub proof fn same_content_shares_an_object(
    a: ArtifactRecordView,
    b: ArtifactRecordView,
    max_bytes: u64,
    run_a: Seq<char>,
    run_b: Seq<char>,
    ref_a: Seq<char>,
    ref_b: Seq<char>,
    kind_a: Seq<char>,
    kind_b: Seq<char>,
    content: Seq<char>,
    at_a: TimestampView,
    at_b: TimestampView,
)
    requires
        artifact_record(max_bytes, run_a, ref_a, kind_a, content, at_a) == Ok::<
            ArtifactRecordView,
            WorkflowErrorView,
        >(a),
        artifact_record(max_bytes, run_b, ref_b, kind_b, content, at_b) == Ok::<
            ArtifactRecordView,
            WorkflowErrorView,
        >(b),
    ensures
        a.sha256 == b.sha256,
        a.object_rel_path == b.object_rel_path,
        a.bytes == b.bytes,
{
}

} // verus!
