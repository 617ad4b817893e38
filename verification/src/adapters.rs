//! What the filesystem and Obsidian adapters report: the observation envelopes built
//! from a directory scan or from one note of a vault.
use gray_matter::Matter;
use gray_matter::engine::YAML;
use vstd::prelude::*;
use vstd::string::StringExecFns;

use crate::envelope::{new_observation, observation_lifetime_ms, observation_view};
use crate::frontmatter::{front_matter_is_readable, front_matter_readable, has_front_matter};
use crate::json::json_string_array;
use crate::identity::{HostInfo, create_default_identity, default_tenant, is_fresh_node_identity, node_id_of};
use crate::proto::{AgentIdentity, TwilightEnvelope};
use crate::sources::{is_v4_uuid_text, max_unix_ms};
use crate::strings::{is_white_space, str_eq};

verus! {

#[verifier::external_type_specification]
#[verifier::external_body]
pub struct ExJsonError(serde_json::Error);

/// A note of the vault and its front matter.
#[derive(Clone, Debug)]
pub struct Pod {
    pub id: String,
    pub data: String,
}

/// `serde_json::to_string` of a list of strings: the compact JSON array of the strings,
/// each written with `serde_json`'s escapes (`Serializer::serialize_seq` writes `[`, the
/// elements separated by `,`, then `]`; `serialize_str` writes the escaped string
/// between quotes).
///
/// The encoder fails only where a `Serialize` impl decides to fail, where a map has
/// keys that are not strings, or where the writer fails; a list of strings has no map,
/// the impls for `Vec` and `String` never fail, and writing to the `Vec<u8>` that
/// `to_string` fills never fails, so the result is always `Ok`.
#[verifier::external_body]
fn encode_string_list(items: &Vec<String>) -> (r: Result<String, serde_json::Error>)
    ensures
        r is Ok,
        r matches Ok(s) ==> s@ == json_string_array(items.deep_view()),
{
    serde_json::to_string(items)
}

/// The front matter of a Markdown note as `gray_matter`'s YAML engine reads it,
/// written with `Debug`: `Matter::<YAML>::new().parse(content).data`.
///
/// `Matter::parse` reports data exactly when the first line (up to the first line break),
/// with trailing white space removed, is `---`, a later line so trimmed is `---`, and the
/// text between is not blank; that is `has_front_matter`. The text of a mapping follows
/// the iteration order of a `HashMap` seeded per process, so it is not stated.
///
/// The YAML reader, the conversion of its value and the `Debug` writer recurse once per
/// level of nesting with no limit of their own, and exhaust the stack on deep enough
/// input; the block is admitted only where `front_matter_is_readable` bounds that depth.
#[verifier::external_body]
fn front_matter_debug(content: &str) -> (r: Option<String>)
    requires
        front_matter_is_readable(content@),
    ensures
        r is Some <==> has_front_matter(content@),
{
    let matter = Matter::<YAML>::new();
    matter.parse(content).data.map(|pod| format!("{:?}", pod))
}

/// The extension of the file name of `path`, as `Path::extension` finds it.
pub uninterp spec fn path_extension(path: Seq<char>) -> Option<Seq<char>>;

/// `std::path::Path::new(path).extension()`, as a string.
#[verifier::external_body]
fn file_extension(path: &str) -> (r: Option<String>)
    ensures
        match r {
            Some(e) => path_extension(path@) == Some(e@),
            None => path_extension(path@) is None,
        },
{
    std::path::Path::new(path).extension().map(|e| e.to_string_lossy().into_owned())
}

/// Whether the file at `path` is a Markdown note: its extension is `md`.
pub fn is_markdown_file(path: &str) -> (r: bool)
    ensures
        r == (path_extension(path@) == Some("md"@)),
{
    match file_extension(path) {
        Some(e) => str_eq(e.as_str(), "md"),
        None => false,
    }
}

/// Why an observation could not be built.
#[derive(Clone, Copy, Debug, PartialEq, Eq, Structural)]
pub enum EncodeError {
    /// The JSON encoder refused the data.
    Json,
}

/// The identity of the filesystem adapter on this host.
pub fn filesystem_adapter_identity(host: &HostInfo) -> (r: AgentIdentity)
    ensures
        is_fresh_node_identity(r@, "filesystem-adapter"@, "adapter"@, node_id_of(*host), default_tenant()),
{
    create_default_identity("filesystem-adapter", "adapter", host)
}

/// The identity of the Obsidian adapter on this host.
pub fn obsidian_adapter_identity(host: &HostInfo) -> (r: AgentIdentity)
    ensures
        is_fresh_node_identity(r@, "obsidian-adapter"@, "adapter"@, node_id_of(*host), default_tenant()),
{
    create_default_identity("obsidian-adapter", "adapter", host)
}

/// The report of a directory scan by `source`: an `fs_scan` observation with low
/// priority (1), tagged `fs_scan`, whose data is the JSON list of the files found.
/// A list of file names always encodes, so the scan is always reported.
pub fn fs_scan_envelope(source: &AgentIdentity, files: &Vec<String>) -> (r: Result<TwilightEnvelope, EncodeError>)
    ensures
        r is Ok,
        match r {
            Ok(e) => {
                &&& e@.source == Some(source@)
                &&& is_v4_uuid_text(e@.message_uuid)
                &&& 0 <= e@.created_unix_ms < max_unix_ms()
                &&& observation_lifetime_ms() <= e@.expires_unix_ms < max_unix_ms()
                    + observation_lifetime_ms()
                &&& e@ == observation_view(
                    source@,
                    "fs_scan"@,
                    json_string_array(files.deep_view()),
                    1,
                    seq!["fs_scan"@],
                    e@.message_uuid,
                    e@.created_unix_ms,
                    e@.expires_unix_ms,
                )
            },
            Err(_) => true,
        },
{
    match encode_string_list(files) {
        Ok(data_json) => {
            let mut tags: Vec<String> = Vec::new();
            tags.push(String::from_str("fs_scan"));
            assert(tags.deep_view() =~= seq!["fs_scan"@]);
            Ok(new_observation(source, "fs_scan", data_json, 1, tags))
        },
        Err(_) => Err(EncodeError::Json),
    }
}

/// The data of a note's observation: its front matter, or `{}` when it has none.
pub open spec fn note_data(front_matter: Option<Seq<char>>) -> Seq<char> {
    match front_matter {
        Some(d) => d,
        None => "{}"@,
    }
}

/// The observation of note `file_name` with front matter `front_matter`.
pub open spec fn note_observation(
    source: crate::proto::AgentIdentityView,
    file_name: Seq<char>,
    front_matter: Option<Seq<char>>,
    message_uuid: Seq<char>,
    created: i64,
    expires: i64,
) -> crate::proto::TwilightEnvelopeView {
    observation_view(
        source,
        "obsidian_note"@,
        note_data(front_matter),
        2,
        seq!["obsidian"@, file_name],
        message_uuid,
        created,
        expires,
    )
}

/// The report of one note by `source`, given what the YAML reader made of the note's
/// front matter: an `obsidian_note` observation with priority 2, tagged `obsidian` and
/// the note's file name, whose data is `front_matter`, or `{}` when there is none.
pub fn note_envelope_from(source: &AgentIdentity, file_name: &str, front_matter: Option<String>) -> (r: TwilightEnvelope)
    ensures
        r@.source == Some(source@),
        is_v4_uuid_text(r@.message_uuid),
        0 <= r@.created_unix_ms < max_unix_ms(),
        observation_lifetime_ms() <= r@.expires_unix_ms < max_unix_ms() + observation_lifetime_ms(),
        r@ == note_observation(
            source@,
            file_name@,
            match front_matter {
                Some(d) => Some(d@),
                None => None,
            },
            r@.message_uuid,
            r@.created_unix_ms,
            r@.expires_unix_ms,
        ),
{
    let ghost fm = match &front_matter {
        Some(d) => Some(d@),
        None => None,
    };
    let data_json = match front_matter {
        Some(d) => d,
        None => String::from_str("{}"),
    };
    let mut tags: Vec<String> = Vec::new();
    tags.push(String::from_str("obsidian"));
    tags.push(String::from_str(file_name));
    assert(tags.deep_view() =~= seq!["obsidian"@, file_name@]);
    let e = new_observation(source, "obsidian_note", data_json, 2, tags);
    assert(e@ == note_observation(
        source@,
        file_name@,
        fm,
        e@.message_uuid,
        e@.created_unix_ms,
        e@.expires_unix_ms,
    ));
    e
}

/// The report of one note by `source`: the front matter is read (see `front_matter_debug`)
/// and reported by `note_envelope_from`. A note whose front matter block the YAML reader
/// cannot take without the risk of exhausting the stack (see `front_matter_is_readable`)
/// is not reported: the result is `None`.
pub fn note_envelope(source: &AgentIdentity, file_name: &str, content: &str) -> (r: Option<TwilightEnvelope>)
    ensures
        r is Some <==> front_matter_is_readable(content@),
        r matches Some(e) ==> {
            &&& e@.source == Some(source@)
            &&& is_v4_uuid_text(e@.message_uuid)
            &&& 0 <= e@.created_unix_ms < max_unix_ms()
            &&& observation_lifetime_ms() <= e@.expires_unix_ms < max_unix_ms() + observation_lifetime_ms()
            &&& exists|front_matter: Option<Seq<char>>|
                (front_matter is Some <==> has_front_matter(content@)) && e@ == #[trigger] note_observation(
                    source@,
                    file_name@,
                    front_matter,
                    e@.message_uuid,
                    e@.created_unix_ms,
                    e@.expires_unix_ms,
                )
        },
{
    if !front_matter_readable(content) {
        return None;
    }
    let front = front_matter_debug(content);
    let ghost fm = match &front {
        Some(d) => Some(d@),
        None => None,
    };
    let e = note_envelope_from(source, file_name, front);
    assert(fm is Some <==> has_front_matter(content@));
    Some(e)
}

} // verus!
