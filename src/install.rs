use vstd::prelude::*;
use crate::fingerprint::bytes_equal;

verus! {

/// What installing one unit file did.
#[derive(Clone, Copy, Debug, PartialEq, Eq, Structural)]
pub enum InstallOutcome {
    /// No file was there; it was written.
    Created,
    /// A file with other content was there; it was replaced.
    Replaced,
    /// The file already held the content; nothing was written.
    Unchanged,
}

/// The outcome of installing `content` where `existing` is found.
pub open spec fn install_outcome_of(existing: Option<Seq<u8>>, content: Seq<u8>) -> InstallOutcome {
    match existing {
        None => InstallOutcome::Created,
        Some(e) => if e == content { InstallOutcome::Unchanged } else { InstallOutcome::Replaced },
    }
}

/// Whether an outcome needs the file to be written.
pub open spec fn needs_write(o: InstallOutcome) -> bool {
    o != InstallOutcome::Unchanged
}

/// The file's content once the install is carried out.
pub open spec fn file_after_install(existing: Option<Seq<u8>>, content: Seq<u8>) -> Option<Seq<u8>> {
    if needs_write(install_outcome_of(existing, content)) { Some(content) } else { existing }
}

/// Decides how to install `content` over what the file holds now
/// (`None` when there is no file): write only when the bytes differ.
pub fn install_outcome(existing: &Option<Vec<u8>>, content: &[u8]) -> (r: InstallOutcome)
    ensures
        r == install_outcome_of(
            match existing { Some(e) => Some(e@), None => None },
            content@,
        ),
{
    match existing {
        None => InstallOutcome::Created,
        Some(e) => {
            if bytes_equal(e.as_slice(), content) {
                InstallOutcome::Unchanged
            } else {
                InstallOutcome::Replaced
            }
        },
    }
}

/// Installing the same content twice in a row writes at most once: the
/// file then holds the content, and the second install is `Unchanged`.
/// When the file did not already hold it, the first install writes.
pub proof fn lemma_install_twice(existing: Option<Seq<u8>>, content: Seq<u8>)
    ensures
        file_after_install(existing, content) == Some(content),
        install_outcome_of(file_after_install(existing, content), content) == InstallOutcome::Unchanged,
        file_after_install(file_after_install(existing, content), content) == Some(content),
        needs_write(install_outcome_of(existing, content)) <==> existing != Some(content),
{
}

} // verus!
