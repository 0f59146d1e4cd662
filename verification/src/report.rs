//! What the user is told when something fails: every error as a text that
//! says what was attempted, so that the failure can be understood without
//! any log.
use crate::installer::{DownloadFailure, InstallError, InstallErrorView};
use crate::launch::LaunchError;
use crate::manifest::{entry_views, ComponentManifestEntry, EntryView, ManifestError};
use crate::resolver::NotFound;
use crate::text::{as_text, decimal, push_decimal, texts};
use vstd::prelude::*;
use vstd::string::StringExecFns;

verus! {

/// The items one below the other, each on an indented line of its own.
pub open spec fn lines_text(items: Seq<Seq<char>>) -> Seq<char>
    decreases items.len(),
{
    if items.len() == 0 {
        Seq::empty()
    } else {
        lines_text(items.drop_last()) + "\n  "@ + items.last()
    }
}

/// Appends each item on an indented line of its own.
pub fn push_lines(out: &mut String, items: &Vec<String>)
    ensures
        final(out)@ == old(out)@ + lines_text(texts(items@)),
{
    let mut i: usize = 0;
    while i < items.len()
        invariant
            i <= items.len(),
            out@ == old(out)@ + lines_text(texts(items@.subrange(0, i as int))),
        decreases items.len() - i,
    {
        proof {
            let next = texts(items@.subrange(0, i + 1));
            assert(next.drop_last() =~= texts(items@.subrange(0, i as int)));
        }
        out.append("\n  ");
        out.append(items[i].as_str());
        i += 1;
    }
    assert(items@.subrange(0, i as int) =~= items@);
}

/// What is said when a search found nothing: what was looked for, and every
/// location that was tried.
pub open spec fn not_found_text(what: Seq<char>, tried: Seq<Seq<char>>) -> Seq<char> {
    what + " not found; tried:"@ + lines_text(tried)
}

/// Describes a search that found nothing.
pub fn describe_not_found(what: &str, missing: &NotFound) -> (message: String)
    ensures
        message@ == not_found_text(what@, texts(missing.tried@)),
{
    let mut message = what.to_owned();
    message.append(" not found; tried:");
    push_lines(&mut message, &missing.tried);
    message
}

/// How a component is called in a message: by its name, or by its index
/// where the manifest has no such entry.
pub open spec fn component_label(entries: Seq<EntryView>, component: nat) -> Seq<char> {
    if component < entries.len() {
        entries[component as int].name
    } else {
        "component "@ + as_text(decimal(component))
    }
}

/// How a mirror is called in a message: by its URL, or by its index where
/// the manifest has no such mirror.
pub open spec fn mirror_label(entries: Seq<EntryView>, component: nat, mirror: nat) -> Seq<char> {
    if component < entries.len() && mirror < entries[component as int].mirror_urls.len() {
        entries[component as int].mirror_urls[mirror as int]
    } else {
        "mirror "@ + as_text(decimal(mirror))
    }
}

/// Why a download did not count, in words.
pub open spec fn failure_reason(failure: DownloadFailure) -> Seq<char> {
    match failure {
        DownloadFailure::Transport => "transport error"@,
        DownloadFailure::Status { status } => "HTTP status "@ + as_text(decimal(status as nat)),
        DownloadFailure::LengthMismatch { declared, received } => "received "@ + as_text(
            decimal(received as nat),
        ) + " of "@ + as_text(decimal(declared as nat)) + " bytes"@,
    }
}

/// The failed attempts one below the other: each mirror with its reason.
pub open spec fn attempts_text(
    entries: Seq<EntryView>,
    component: nat,
    failures: Seq<DownloadFailure>,
) -> Seq<char>
    decreases failures.len(),
{
    if failures.len() == 0 {
        Seq::empty()
    } else {
        attempts_text(entries, component, failures.drop_last()) + "\n  "@ + mirror_label(
            entries,
            component,
            (failures.len() - 1) as nat,
        ) + ": "@ + failure_reason(failures.last())
    }
}

/// What is said when an installation run fails.
pub open spec fn install_failure_text(entries: Seq<EntryView>, error: InstallErrorView) -> Seq<
    char,
> {
    match error {
        InstallErrorView::MirrorsExhausted { component, failures } => "Failed to download "@
            + component_label(entries, component) + ": every mirror failed"@ + attempts_text(
            entries,
            component,
            failures,
        ),
        InstallErrorView::ExtractionFailed { component } => "Failed to extract "@
            + component_label(entries, component),
        InstallErrorView::VerificationFailed { component, listing } => "Failed to verify "@
            + component_label(entries, component) + "; the install directory held:"@
            + lines_text(listing),
    }
}

fn push_component_label(out: &mut String, entries: &Vec<ComponentManifestEntry>, component: usize)
    ensures
        final(out)@ == old(out)@ + component_label(entry_views(entries@), component as nat),
{
    if component < entries.len() {
        out.append(entries[component].name.as_str());
    } else {
        out.append("component ");
        push_decimal(out, component as u64);
    }
}

fn push_mirror_label(
    out: &mut String,
    entries: &Vec<ComponentManifestEntry>,
    component: usize,
    mirror: usize,
)
    ensures
        final(out)@ == old(out)@ + mirror_label(
            entry_views(entries@),
            component as nat,
            mirror as nat,
        ),
{
    if component < entries.len() && mirror < entries[component].mirror_urls.len() {
        out.append(entries[component].mirror_urls[mirror].as_str());
    } else {
        out.append("mirror ");
        push_decimal(out, mirror as u64);
    }
}

fn push_failure_reason(out: &mut String, failure: DownloadFailure)
    ensures
        final(out)@ == old(out)@ + failure_reason(failure),
{
    match failure {
        DownloadFailure::Transport => {
            out.append("transport error");
        },
        DownloadFailure::Status { status } => {
            out.append("HTTP status ");
            push_decimal(out, status as u64);
        },
        DownloadFailure::LengthMismatch { declared, received } => {
            out.append("received ");
            push_decimal(out, received);
            out.append(" of ");
            push_decimal(out, declared);
            out.append(" bytes");
        },
    }
}

/// Describes a failed installation run; `entries` is the manifest that the
/// run was made for.
pub fn describe_install_failure(entries: &Vec<ComponentManifestEntry>, error: &InstallError) -> (
    message: String)
    ensures
        message@ == install_failure_text(entry_views(entries@), error@),
{
    match error {
        InstallError::MirrorsExhausted { component, failures } => {
            let mut message = String::from_str("Failed to download ");
            push_component_label(&mut message, entries, *component);
            message.append(": every mirror failed");
            let ghost head = message@;
            let mut i: usize = 0;
            while i < failures.len()
                invariant
                    i <= failures.len(),
                    message@ == head + attempts_text(
                        entry_views(entries@),
                        *component as nat,
                        failures@.subrange(0, i as int),
                    ),
                decreases failures.len() - i,
            {
                proof {
                    let next = failures@.subrange(0, i + 1);
                    assert(next.drop_last() =~= failures@.subrange(0, i as int));
                }
                message.append("\n  ");
                push_mirror_label(&mut message, entries, *component, i);
                message.append(": ");
                push_failure_reason(&mut message, failures[i]);
                i += 1;
            }
            assert(failures@.subrange(0, i as int) =~= failures@);
            message
        },
        InstallError::ExtractionFailed { component } => {
            let mut message = String::from_str("Failed to extract ");
            push_component_label(&mut message, entries, *component);
            message
        },
        InstallError::VerificationFailed { component, listing } => {
            let mut message = String::from_str("Failed to verify ");
            push_component_label(&mut message, entries, *component);
            message.append("; the install directory held:");
            push_lines(&mut message, listing);
            message
        },
    }
}

/// What is said when a manifest is refused.
pub open spec fn manifest_error_text(error: ManifestError) -> Seq<char> {
    match error {
        ManifestError::NoMirrors { index } => "Manifest entry "@ + as_text(decimal(index as nat))
            + " names no download URL"@,
        ManifestError::DuplicateDirectory { first, second } => "Manifest entries "@ + as_text(
            decimal(first as nat),
        ) + " and "@ + as_text(decimal(second as nat)) + " share an install directory"@,
    }
}

/// Describes a refused manifest.
pub fn describe_manifest_error(error: ManifestError) -> (message: String)
    ensures
        message@ == manifest_error_text(error),
{
    match error {
        ManifestError::NoMirrors { index } => {
            let mut message = String::from_str("Manifest entry ");
            push_decimal(&mut message, index as u64);
            message.append(" names no download URL");
            message
        },
        ManifestError::DuplicateDirectory { first, second } => {
            let mut message = String::from_str("Manifest entries ");
            push_decimal(&mut message, first as u64);
            message.append(" and ");
            push_decimal(&mut message, second as u64);
            message.append(" share an install directory");
            message
        },
    }
}

/// What is said when a launch cannot be prepared.
pub open spec fn launch_error_text(error: LaunchError) -> Seq<char> {
    match error {
        LaunchError::PayloadTooLarge => "The launch payload is too large to encode"@,
    }
}

/// Describes a launch that could not be prepared.
pub fn describe_launch_error(error: LaunchError) -> (message: String)
    ensures
        message@ == launch_error_text(error),
{
    match error {
        LaunchError::PayloadTooLarge => String::from_str(
            "The launch payload is too large to encode",
        ),
    }
}

} // verus!
