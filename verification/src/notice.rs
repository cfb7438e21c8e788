//! What the protocol asks to be shown: log lines and progress updates.

use vstd::prelude::*;

verus! {

/// One thing to show, handed to whatever draws the progress display.
#[derive(Debug, PartialEq, Eq)]
pub enum Notice {
    /// A line for the log, above the live progress.
    Log(String),
    /// The label of the transfer's progress handle.
    SetMessage(String),
    /// The total number of bytes expected.
    SetLength(u64),
    /// The number of bytes already there.
    SetPosition(u64),
    /// Start measuring elapsed time afresh.
    ResetElapsed,
    /// So many more bytes are durably on disk.
    Advance(u64),
}

/// A `Notice` with its texts as sequences of characters.
pub enum NoticeModel {
    Log(Seq<char>),
    SetMessage(Seq<char>),
    SetLength(u64),
    SetPosition(u64),
    ResetElapsed,
    Advance(u64),
}

impl View for Notice {
    type V = NoticeModel;

    open spec fn view(&self) -> NoticeModel {
        match self {
            Notice::Log(line) => NoticeModel::Log(line@),
            Notice::SetMessage(label) => NoticeModel::SetMessage(label@),
            Notice::SetLength(n) => NoticeModel::SetLength(*n),
            Notice::SetPosition(n) => NoticeModel::SetPosition(*n),
            Notice::ResetElapsed => NoticeModel::ResetElapsed,
            Notice::Advance(n) => NoticeModel::Advance(*n),
        }
    }
}

/// The notices of a list, in order.
pub open spec fn notices_of(list: Seq<Notice>) -> Seq<NoticeModel> {
    list.map_values(|n: Notice| n@)
}

} // verus!
