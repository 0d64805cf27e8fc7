//! The check for updates: what an installation needs, and what its user is
//! told.

use vstd::prelude::*;
use vstd::string::StringExecFns;
use crate::ledger::{
    local_view,
    needed_releases,
    parsed_manifest,
    plans,
    read_manifest,
    standing,
    standing_of,
    Release,
    Standing,
    UpdateInfo,
    VersionError,
};
use crate::version::{dotted, Version};

verus! {

/// A message for the user.
#[derive(Clone, Debug, PartialEq, Eq)]
pub struct Notice {
    pub title: String,
    pub message: String,
}

/// What a check for updates found.
#[derive(Debug)]
pub struct UpdateCheck {
    /// What the user is told, if anything.
    pub notice: Option<Notice>,
    /// The needed releases, in the order in which they are applied.
    pub needed: Result<Vec<Release>, VersionError>,
}

/// A notice in contracts.
pub struct NoticeView {
    pub title: Seq<char>,
    pub message: Seq<char>,
}

impl View for Notice {
    type V = NoticeView;

    open spec fn view(&self) -> NoticeView {
        NoticeView { title: self.title@, message: self.message@ }
    }
}

/// The notice for an installation below the least version.
pub open spec fn unsupported_notice(current: Seq<char>, least: Seq<char>) -> NoticeView {
    NoticeView {
        title: "Unsupported Version"@,
        message: "You're using an older version: "@ + current
            + " that is not supported by the downloader (last supported version: "@ + least
            + ")\n Your version can't be updated."@,
    }
}

/// The notice for an installation behind the latest version.
pub open spec fn available_notice(current: Seq<char>, latest: Seq<char>) -> NoticeView {
    NoticeView {
        title: "New version available"@,
        message: "A new version is available: "@ + latest + " (current: "@ + current + ")"@,
    }
}

/// The notice for an installation at the latest version.
pub open spec fn current_notice(current: Seq<char>) -> NoticeView {
    NoticeView {
        title: "New version available"@,
        message: "You are using the latest version: "@ + current,
    }
}

/// The notice for an installation above the latest version.
pub open spec fn ahead_notice(current: Seq<char>, latest: Seq<char>) -> NoticeView {
    NoticeView {
        title: "New version available"@,
        message: "You are using a newer version: "@ + current + ", latest: "@ + latest
            + ".\n How..???"@,
    }
}

/// What the user is told: that the installation cannot be updated, in any
/// case; where it stands otherwise, unless a download is under way.
pub open spec fn notice_for(
    downloading: bool,
    position: Standing,
    current: Seq<char>,
    latest: Seq<char>,
    least: Seq<char>,
) -> Option<NoticeView> {
    match position {
        Standing::Unsupported => Some(unsupported_notice(current, least)),
        Standing::Behind => if downloading {
            None
        } else {
            Some(available_notice(current, latest))
        },
        Standing::Current => if downloading {
            None
        } else {
            Some(current_notice(current))
        },
        Standing::Ahead => if downloading {
            None
        } else {
            Some(ahead_notice(current, latest))
        },
    }
}

/// Two texts in a row.
fn joined2(a: &str, b: &str) -> (text: String)
    ensures
        text@ == a@ + b@,
{
    let mut text = String::from_str(a);
    text.append(b);
    text
}

/// Five texts in a row.
fn joined5(a: &str, b: &str, c: &str, d: &str, e: &str) -> (text: String)
    ensures
        text@ == a@ + b@ + c@ + d@ + e@,
{
    let mut text = String::from_str(a);
    text.append(b);
    text.append(c);
    text.append(d);
    text.append(e);
    text
}

/// Checks a manifest for an installation at `local`. Without an installed
/// version nothing is compared: no release is needed and nothing is said,
/// which leaves the full package to the run that follows.
pub fn check_updates(downloading: bool, local: Option<&Version>, info: &UpdateInfo) -> (check:
    UpdateCheck)
    ensures
        local is None ==> check.notice is None && (check.needed matches Ok(list) && list@.len()
            == 0),
        local is Some ==> match parsed_manifest(*info) {
            Some(manifest) => {
                &&& plans(check.needed, local_view(local), manifest)
                &&& match notice_for(
                    downloading,
                    standing(local_view(local), manifest.latest, manifest.least_supported),
                    dotted(local->0@),
                    info.latest@,
                    info.least@,
                ) {
                    Some(notice) => check.notice is Some && check.notice->0@ == notice,
                    None => check.notice is None,
                }
            },
            None => check.notice is None && check.needed matches Err(
                VersionError::ManifestCorrupt,
            ),
        },
{
    let installed = match local {
        None => {
            return UpdateCheck { notice: None, needed: Ok(Vec::new()) };
        },
        Some(v) => v,
    };
    let manifest = match read_manifest(info) {
        None => {
            return UpdateCheck { notice: None, needed: Err(VersionError::ManifestCorrupt) };
        },
        Some(m) => m,
    };
    let current = installed.text();
    let notice = match standing_of(local, &manifest.latest, &manifest.least_supported) {
        Standing::Unsupported => Some(
            Notice {
                title: String::from_str("Unsupported Version"),
                message: joined5(
                    "You're using an older version: ",
                    current.as_str(),
                    " that is not supported by the downloader (last supported version: ",
                    info.least.as_str(),
                    ")\n Your version can't be updated.",
                ),
            },
        ),
        Standing::Ahead => if downloading {
            None
        } else {
            Some(
                Notice {
                    title: String::from_str("New version available"),
                    message: joined5(
                        "You are using a newer version: ",
                        current.as_str(),
                        ", latest: ",
                        info.latest.as_str(),
                        ".\n How..???",
                    ),
                },
            )
        },
        Standing::Current => if downloading {
            None
        } else {
            Some(
                Notice {
                    title: String::from_str("New version available"),
                    message: joined2("You are using the latest version: ", current.as_str()),
                },
            )
        },
        Standing::Behind => if downloading {
            None
        } else {
            Some(
                Notice {
                    title: String::from_str("New version available"),
                    message: joined5(
                        "A new version is available: ",
                        info.latest.as_str(),
                        " (current: ",
                        current.as_str(),
                        ")",
                    ),
                },
            )
        },
    };
    UpdateCheck { notice, needed: needed_releases(local, &manifest) }
}

} // verus!
