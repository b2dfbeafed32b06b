use vstd::prelude::*;
use crate::stats::{CacheStatistic, CacheStatisticView, view_all};

verus! {

/// A request to compile: the compiler executable, the working directory and
/// the full command line.
pub struct Compile {
    pub exe: String,
    pub cwd: String,
    pub command: Vec<String>,
}

/// A request from a client.
pub enum ClientRequest {
    Compile(Compile),
    GetStats,
    ZeroStats,
    Shutdown,
    /// A request whose tag this server does not know.
    Unrecognized,
}

/// The terminal frame of a compile: how the compiler exited and what it
/// printed.
pub struct CompileFinished {
    pub retcode: Option<i32>,
    pub signal: Option<i32>,
    pub stdout: Vec<u8>,
    pub stderr: Vec<u8>,
}

/// A response frame sent to a client.
pub enum ServerResponse {
    CompileStarted,
    CompileFinished(CompileFinished),
    UnhandledCompile,
    UnknownCommand,
    CacheStats(Vec<CacheStatistic>),
    ShuttingDown(Vec<CacheStatistic>),
}

/// The mathematical value of a request.
pub enum RequestView {
    Compile { exe: Seq<char>, cwd: Seq<char>, command: Seq<Seq<char>> },
    GetStats,
    ZeroStats,
    Shutdown,
    Unrecognized,
}

pub open spec fn strings_view(v: Seq<String>) -> Seq<Seq<char>> {
    v.map_values(|s: String| s@)
}

impl View for ClientRequest {
    type V = RequestView;

    open spec fn view(&self) -> RequestView {
        match self {
            ClientRequest::Compile(c) => RequestView::Compile {
                exe: c.exe@,
                cwd: c.cwd@,
                command: strings_view(c.command@),
            },
            ClientRequest::GetStats => RequestView::GetStats,
            ClientRequest::ZeroStats => RequestView::ZeroStats,
            ClientRequest::Shutdown => RequestView::Shutdown,
            ClientRequest::Unrecognized => RequestView::Unrecognized,
        }
    }
}

pub struct CompileFinishedView {
    pub retcode: Option<i32>,
    pub signal: Option<i32>,
    pub stdout: Seq<u8>,
    pub stderr: Seq<u8>,
}

pub enum ResponseView {
    CompileStarted,
    CompileFinished(CompileFinishedView),
    UnhandledCompile,
    UnknownCommand,
    CacheStats(Seq<CacheStatisticView>),
    ShuttingDown(Seq<CacheStatisticView>),
}

impl View for CompileFinished {
    type V = CompileFinishedView;

    open spec fn view(&self) -> CompileFinishedView {
        CompileFinishedView {
            retcode: self.retcode,
            signal: self.signal,
            stdout: self.stdout@,
            stderr: self.stderr@,
        }
    }
}

impl View for ServerResponse {
    type V = ResponseView;

    open spec fn view(&self) -> ResponseView {
        match self {
            ServerResponse::CompileStarted => ResponseView::CompileStarted,
            ServerResponse::CompileFinished(f) => ResponseView::CompileFinished(f@),
            ServerResponse::UnhandledCompile => ResponseView::UnhandledCompile,
            ServerResponse::UnknownCommand => ResponseView::UnknownCommand,
            ServerResponse::CacheStats(v) => ResponseView::CacheStats(view_all(v@)),
            ServerResponse::ShuttingDown(v) => ResponseView::ShuttingDown(view_all(v@)),
        }
    }
}


/// The kind of a frame sent on a compile's response stream.
#[derive(Clone, Copy, PartialEq, Eq, Structural, Debug)]
pub enum FrameKind {
    Started,
    Finished,
}

/// The response stream of an accepted compile: one `CompileStarted` frame
/// when it opens, then one `CompileFinished` frame, after which it is closed.
pub struct CompileStream {
    closed: bool,
    sent: Ghost<Seq<FrameKind>>,
}

impl CompileStream {
    /// The frames sent so far, in order.
    pub closed spec fn frames(&self) -> Seq<FrameKind> {
        self.sent@
    }

    pub closed spec fn spec_closed(&self) -> bool {
        self.closed
    }

    pub closed spec fn wf(&self) -> bool {
        self.sent@ == if self.closed {
            seq![FrameKind::Started, FrameKind::Finished]
        } else {
            seq![FrameKind::Started]
        }
    }

    /// Opens the stream, with its first frame.
    pub fn open() -> (r: (CompileStream, ServerResponse))
        ensures
            r.0.wf(),
            !r.0.spec_closed(),
            r.0.frames() == seq![FrameKind::Started],
            r.1@ == ResponseView::CompileStarted,
    {
        let sent = Ghost(Seq::<FrameKind>::empty().push(FrameKind::Started));
        proof {
            assert(sent@ =~= seq![FrameKind::Started]);
        }
        (CompileStream { closed: false, sent }, ServerResponse::CompileStarted)
    }

    /// Whether the terminal frame has been sent.
    pub fn is_closed(&self) -> (r: bool)
        ensures
            r == self.spec_closed(),
    {
        self.closed
    }

    /// The terminal frame, the first time only; afterwards nothing is sent.
    pub fn finish(&mut self, f: CompileFinished) -> (r: Option<ServerResponse>)
        requires
            old(self).wf(),
        ensures
            final(self).wf(),
            final(self).spec_closed(),
            old(self).spec_closed() ==> r is None && final(self).frames() == old(self).frames(),
            !old(self).spec_closed() ==> final(self).frames() == old(self).frames().push(
                FrameKind::Finished,
            ) && (r matches Some(resp) && resp@ == ResponseView::CompileFinished(f@)),
    {
        if self.closed {
            None
        } else {
            self.closed = true;
            self.sent = Ghost(self.sent@.push(FrameKind::Finished));
            proof {
                assert(self.sent@ =~= seq![FrameKind::Started, FrameKind::Finished]);
            }
            Some(ServerResponse::CompileFinished(f))
        }
    }
}

/// Once an accepted compile's stream is closed it has carried exactly one
/// terminal frame, after the opening one.
pub proof fn lemma_one_terminal_frame(s: CompileStream)
    requires
        s.wf(),
        s.spec_closed(),
    ensures
        s.frames() == seq![FrameKind::Started, FrameKind::Finished],
        s.frames().filter(|k: FrameKind| k == FrameKind::Finished).len() == 1,
{
    reveal(Seq::filter);
    let fr = s.frames();
    let p = |k: FrameKind| k == FrameKind::Finished;
    assert(fr.drop_last() =~= seq![FrameKind::Started]);
    assert(fr.drop_last().drop_last() =~= Seq::<FrameKind>::empty());
    assert(fr.drop_last().drop_last().filter(p) =~= Seq::<FrameKind>::empty());
    assert(fr.drop_last().filter(p) =~= Seq::<FrameKind>::empty());
    assert(fr.filter(p) =~= seq![FrameKind::Finished]);
}

} // verus!
