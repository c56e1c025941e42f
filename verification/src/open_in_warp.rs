//! The "Open in Warp" banner: offered when a file that Warp can show was
//! named in a command, and what each of its buttons does.
use vstd::prelude::*;

use crate::code::CodeSource;

verus! {

/// The kinds of file that Warp can open itself.
#[derive(Debug, Clone, Copy, PartialEq, Eq, Structural)]
pub enum OpenableFileType {
    Markdown,
    Code,
    Text,
}

/// A path to a file that can be opened in Warp, along with its type.
#[derive(Debug, Clone, PartialEq, Eq)]
pub struct OpenablePath {
    pub path: String,
    pub file_type: OpenableFileType,
}

/// The buttons of the banner.
#[derive(Debug, Clone, Copy, PartialEq, Eq, Structural)]
pub enum OpenInWarpBannerAction {
    OpenFile,
    LearnMore,
    Close,
}

/// An open banner: its id in the block list, the file it offers, and the
/// session the file belongs to.
#[derive(Debug, Clone)]
pub struct OpenInWarpBannerState<Session> {
    pub id: usize,
    pub target: OpenablePath,
    pub session: Session,
}

/// What the terminal view does after a button of the banner was pressed.
#[derive(Debug, Clone)]
pub enum OpenInWarpEffect<Session, LineCol> {
    /// No banner is open: nothing happens.
    Nothing,
    /// Show the Markdown file in Warp, then remove the banner.
    OpenFile { path: String, session: Session, banner_id: usize },
    /// Open the file in the code editor, then remove the banner.
    OpenCode { source: CodeSource<LineCol>, banner_id: usize },
    /// Open the documentation page at this address; the banner stays.
    OpenUrl(String),
    /// Remove the banner, and remember that it was dismissed for Markdown files.
    DismissForMarkdown { banner_id: usize },
    /// Remove the banner, and remember that it was dismissed for code and text files.
    DismissForCodeAndText { banner_id: usize },
}

/// The documentation page for a kind of file.
pub open spec fn learn_more_url(file_type: OpenableFileType) -> Seq<char> {
    match file_type {
        OpenableFileType::Markdown => "https://docs.warp.dev/terminal/more-features/markdown-viewer"@,
        _ => "https://docs.warp.dev/code/overview#built-in-code-editor"@,
    }
}

/// The effect of pressing `action` while `banner` is what is open.
pub open spec fn is_open_in_warp_effect<Session, LineCol>(
    banner: Option<OpenInWarpBannerState<Session>>,
    action: OpenInWarpBannerAction,
    e: OpenInWarpEffect<Session, LineCol>,
) -> bool {
    match banner {
        None => e is Nothing,
        Some(b) => match action {
            OpenInWarpBannerAction::OpenFile => if b.target.file_type == OpenableFileType::Markdown {
                e == OpenInWarpEffect::<Session, LineCol>::OpenFile {
                    path: b.target.path,
                    session: b.session,
                    banner_id: b.id,
                }
            } else {
                e == OpenInWarpEffect::<Session, LineCol>::OpenCode {
                    source: CodeSource::Link { path: b.target.path, range_start: None, range_end: None },
                    banner_id: b.id,
                }
            },
            OpenInWarpBannerAction::LearnMore => e matches OpenInWarpEffect::OpenUrl(u) && u@
                == learn_more_url(b.target.file_type),
            OpenInWarpBannerAction::Close => if b.target.file_type == OpenableFileType::Markdown {
                e == OpenInWarpEffect::<Session, LineCol>::DismissForMarkdown { banner_id: b.id }
            } else {
                e == OpenInWarpEffect::<Session, LineCol>::DismissForCodeAndText { banner_id: b.id }
            },
        },
    }
}

/// The banner that is open after `action`: only "Learn more" leaves it open.
pub open spec fn banner_after<Session>(
    banner: Option<OpenInWarpBannerState<Session>>,
    action: OpenInWarpBannerAction,
) -> Option<OpenInWarpBannerState<Session>> {
    match action {
        OpenInWarpBannerAction::LearnMore => banner,
        _ => None,
    }
}

fn learn_more_url_text(file_type: OpenableFileType) -> (r: String)
    ensures
        r@ == learn_more_url(file_type),
{
    match file_type {
        OpenableFileType::Markdown => {
            let s = "https://docs.warp.dev/terminal/more-features/markdown-viewer";
            proof {
                reveal_strlit("https://docs.warp.dev/terminal/more-features/markdown-viewer");
            }
            s.to_owned()
        },
        OpenableFileType::Code | OpenableFileType::Text => {
            let s = "https://docs.warp.dev/code/overview#built-in-code-editor";
            proof {
                reveal_strlit("https://docs.warp.dev/code/overview#built-in-code-editor");
            }
            s.to_owned()
        },
    }
}

/// Handles a button of the banner: the banner is taken down by every button
/// but "Learn more", and the returned effect says what else to do.
pub fn handle_open_in_warp_banner_action<Session, LineCol>(
    banner: &mut Option<OpenInWarpBannerState<Session>>,
    action: OpenInWarpBannerAction,
) -> (r: OpenInWarpEffect<Session, LineCol>)
    ensures
        *final(banner) == banner_after(*old(banner), action),
        is_open_in_warp_effect(*old(banner), action, r),
{
    match action {
        OpenInWarpBannerAction::OpenFile => match banner.take() {
            Some(b) => match b.target.file_type {
                OpenableFileType::Markdown => OpenInWarpEffect::OpenFile {
                    path: b.target.path,
                    session: b.session,
                    banner_id: b.id,
                },
                OpenableFileType::Code | OpenableFileType::Text => OpenInWarpEffect::OpenCode {
                    source: CodeSource::Link { path: b.target.path, range_start: None, range_end: None },
                    banner_id: b.id,
                },
            },
            None => OpenInWarpEffect::Nothing,
        },
        OpenInWarpBannerAction::LearnMore => match banner {
            Some(b) => OpenInWarpEffect::OpenUrl(learn_more_url_text(b.target.file_type)),
            None => OpenInWarpEffect::Nothing,
        },
        OpenInWarpBannerAction::Close => match banner.take() {
            Some(b) => match b.target.file_type {
                OpenableFileType::Markdown => OpenInWarpEffect::DismissForMarkdown { banner_id: b.id },
                OpenableFileType::Code | OpenableFileType::Text => {
                    OpenInWarpEffect::DismissForCodeAndText { banner_id: b.id }
                },
            },
            None => OpenInWarpEffect::Nothing,
        },
    }
}

/// Once a button other than "Learn more" was pressed, no banner is left, and
/// pressing any button again does nothing.
pub proof fn law_banner_closed_once<Session, LineCol>(
    banner: Option<OpenInWarpBannerState<Session>>,
    first: OpenInWarpBannerAction,
    second: OpenInWarpBannerAction,
    e: OpenInWarpEffect<Session, LineCol>,
)
    requires
        first != OpenInWarpBannerAction::LearnMore,
        is_open_in_warp_effect(banner_after(banner, first), second, e),
    ensures
        banner_after(banner, first) is None,
        e is Nothing,
{
}

/// A button acts on the open banner's own file: "Open file" shows a Markdown file in Warp's
/// viewer and opens any other file in the code editor at its path (with no range), in both
/// cases naming the banner to take down; "Close" remembers the dismissal for the file's kind;
/// "Learn more" opens the Markdown viewer's documentation for a Markdown file and the code
/// editor's for any other.
pub proof fn law_banner_button_acts_on_its_file<Session, LineCol>(
    b: OpenInWarpBannerState<Session>,
    action: OpenInWarpBannerAction,
    e: OpenInWarpEffect<Session, LineCol>,
)
    requires
        is_open_in_warp_effect(Some(b), action, e),
    ensures
        action is OpenFile && b.target.file_type is Markdown ==> (e matches OpenInWarpEffect::OpenFile {
            path,
            session,
            banner_id,
        } && path == b.target.path && session == b.session && banner_id == b.id),
        action is OpenFile && !(b.target.file_type is Markdown) ==> (e matches OpenInWarpEffect::OpenCode {
            source: CodeSource::Link { path, range_start: None, range_end: None },
            banner_id,
        } && path == b.target.path && banner_id == b.id),
        action is Close && b.target.file_type is Markdown ==> (e matches OpenInWarpEffect::DismissForMarkdown {
            banner_id,
        } && banner_id == b.id),
        action is Close && !(b.target.file_type is Markdown) ==> (e matches OpenInWarpEffect::DismissForCodeAndText {
            banner_id,
        } && banner_id == b.id),
        action is LearnMore && b.target.file_type is Markdown ==> (e matches OpenInWarpEffect::OpenUrl(
            u,
        ) && u@ == "https://docs.warp.dev/terminal/more-features/markdown-viewer"@),
        action is LearnMore && !(b.target.file_type is Markdown) ==> (e matches OpenInWarpEffect::OpenUrl(
            u,
        ) && u@ == "https://docs.warp.dev/code/overview#built-in-code-editor"@),
{
}

} // verus!
