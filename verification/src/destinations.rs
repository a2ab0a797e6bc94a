//! Destinations as the user keeps them: a folder with a label and a kind.

use vstd::prelude::*;
use vstd::string::StringExecFns;
use crate::platform::{final_component, lowercase_of, to_lowercase};
use crate::text::{
    chars_of, contains_chars, contains_text, has_prefix, segment_from, starts_with_chars,
    string_of, up_to,
};

verus! {

/// A destination in the user's list.
#[derive(Clone, Debug)]
pub struct Destination {
    pub id: u64,
    pub path: String,
    pub label: String,
    /// One of `external`, `cloud`, `local` and `network`.
    pub destination_type: String,
    pub enabled: bool,
}

/// The mathematical content of a [`Destination`].
pub struct DestinationModel {
    pub id: u64,
    pub path: Seq<char>,
    pub label: Seq<char>,
    pub destination_type: Seq<char>,
    pub enabled: bool,
}

impl DeepView for Destination {
    type V = DestinationModel;

    open spec fn deep_view(&self) -> DestinationModel {
        DestinationModel {
            id: self.id,
            path: self.path@,
            label: self.label@,
            destination_type: self.destination_type@,
            enabled: self.enabled,
        }
    }
}

/// The folder below which external volumes are mounted.
pub const VOLUMES: &'static str = "/Volumes/";

/// The cloud service that a path in lowercase names, if it names one.
pub open spec fn cloud_service(lowered: Seq<char>) -> Option<Seq<char>> {
    if contains_text(lowered, "dropbox"@) {
        Some("Dropbox"@)
    } else if contains_text(lowered, "google drive"@) || contains_text(lowered, "googledrive"@) {
        Some("Google Drive"@)
    } else if contains_text(lowered, "onedrive"@) {
        Some("OneDrive"@)
    } else if contains_text(lowered, "icloud"@) {
        Some("iCloud"@)
    } else {
        None
    }
}

/// Whether `path` is a network location.
pub open spec fn is_network_path(path: Seq<char>) -> bool {
    has_prefix(path, "/net/"@) || has_prefix(path, "smb://"@) || has_prefix(path, "afp://"@)
}

/// The kind of the destination at `path`, whose lowercase form is
/// `lowered`: a path that names a cloud service is `cloud`; else one below
/// the volumes folder is `external`; else a network location is `network`;
/// any other is `local`.
pub open spec fn destination_kind(path: Seq<char>, lowered: Seq<char>) -> Seq<char> {
    if cloud_service(lowered) is Some {
        "cloud"@
    } else if has_prefix(path, VOLUMES@) {
        "external"@
    } else if is_network_path(path) {
        "network"@
    } else {
        "local"@
    }
}

/// The label of the destination at `path`, whose lowercase form is
/// `lowered` and whose last component is `component`: the name of the cloud
/// service; for an external volume, what stands between the volumes folder
/// and the next slash; else the last component of the path, or `Network` or
/// `Local` where it has none.
pub open spec fn destination_label(
    path: Seq<char>,
    lowered: Seq<char>,
    component: Option<Seq<char>>,
) -> Seq<char> {
    match cloud_service(lowered) {
        Some(service) => service,
        None => if has_prefix(path, VOLUMES@) {
            up_to(path.skip(VOLUMES@.len() as int), '/')
        } else {
            match component {
                Some(name) => name,
                None => if is_network_path(path) {
                    "Network"@
                } else {
                    "Local"@
                },
            }
        },
    }
}

/// The cloud service that a path in lowercase names.
fn cloud_service_of(lowered: &Vec<char>) -> (service: Option<String>)
    ensures
        service.deep_view() == cloud_service(lowered@),
{
    if contains_chars(lowered, &chars_of("dropbox")) {
        Some(String::from_str("Dropbox"))
    } else if contains_chars(lowered, &chars_of("google drive")) || contains_chars(
        lowered,
        &chars_of("googledrive"),
    ) {
        Some(String::from_str("Google Drive"))
    } else if contains_chars(lowered, &chars_of("onedrive")) {
        Some(String::from_str("OneDrive"))
    } else if contains_chars(lowered, &chars_of("icloud")) {
        Some(String::from_str("iCloud"))
    } else {
        None
    }
}

/// Label and kind of the destination at `path`, whose lowercase form is
/// `lowered` and whose last component is `component`.
pub fn classify_destination(path: &str, lowered: &str, component: Option<String>) -> (described: (
    String,
    String,
))
    ensures
        described.0@ == destination_label(path@, lowered@, component.deep_view()),
        described.1@ == destination_kind(path@, lowered@),
{
    let lowered_chars = chars_of(lowered);
    if let Some(service) = cloud_service_of(&lowered_chars) {
        return (service, String::from_str("cloud"));
    }
    let path_chars = chars_of(path);
    let volumes = chars_of(VOLUMES);
    if starts_with_chars(&path_chars, &volumes) {
        let volume = segment_from(&path_chars, volumes.len(), '/');
        return (string_of(&volume), String::from_str("external"));
    }
    let network = starts_with_chars(&path_chars, &chars_of("/net/")) || starts_with_chars(
        &path_chars,
        &chars_of("smb://"),
    ) || starts_with_chars(&path_chars, &chars_of("afp://"));
    let label = match component {
        Some(name) => name,
        None => if network {
            String::from_str("Network")
        } else {
            String::from_str("Local")
        },
    };
    if network {
        (label, String::from_str("network"))
    } else {
        (label, String::from_str("local"))
    }
}

/// Label and kind of the destination at `path`. The kind follows from the
/// path alone; so does the label, but for a network or local path, whose
/// label is the last component that the platform finds in the path.
pub fn detect_destination_type(path: &str) -> (described: (String, String))
    ensures
        described.1@ == destination_kind(path@, lowercase_of(path@)),
        exists|component: Option<Seq<char>>|
            described.0@ == destination_label(path@, lowercase_of(path@), component),
{
    let lowered = to_lowercase(path);
    let component = final_component(path);
    classify_destination(path, lowered.as_str(), component)
}

/// The entry for the folder `path` in the user's list, enabled, with the
/// number `id`, which the caller takes from the clock.
pub fn parse_destination(path: String, id: u64) -> (destination: Destination)
    ensures
        destination.id == id,
        destination.path@ == path@,
        destination.enabled,
        destination.destination_type@ == destination_kind(path@, lowercase_of(path@)),
        exists|component: Option<Seq<char>>|
            destination.label@ == destination_label(path@, lowercase_of(path@), component),
{
    let (label, destination_type) = detect_destination_type(path.as_str());
    Destination { id, path, label, destination_type, enabled: true }
}

} // verus!
