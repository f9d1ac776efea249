//! The lifecycle of one remux invocation: scoped acquisition of a
//! temporary workspace, staging, multiplexing, restreaming, and the
//! guarantee that the workspace is released on every exit path.
//!
//! The unverified edge performs the actual staging reads, file writes and
//! directory removal; it drives this state machine and may only do what
//! the current phase allows.

use vstd::prelude::*;

use crate::error::Error;
use crate::remux::{remux, spec_remux_ok, spec_selected_audio, spec_wf_input, InputContainer,
    Metadata, OutputContainer};

verus! {

/// The ephemeral, exclusively owned directory holding one invocation's
/// staged input and output files. It exists from `create` until
/// `destroy`, and a well-formed session destroys it before reaching any
/// terminal phase.
pub struct Workspace {
    active: bool,
}

impl Workspace {
    /// The directory currently exists and is owned by this invocation.
    pub closed spec fn spec_active(self) -> bool {
        self.active
    }

    /// Whether the directory currently exists, observed.
    pub fn is_active(&self) -> (r: bool)
        ensures
            r == self.spec_active(),
    {
        self.active
    }

    /// Acquires the workspace for one invocation.
    pub fn create() -> (w: Workspace)
        ensures
            w.spec_active(),
    {
        Workspace { active: true }
    }

    /// Releases the workspace: staged inputs and any intermediate state
    /// are gone.
    pub fn destroy(&mut self)
        ensures
            !final(self).spec_active(),
    {
        self.active = false;
    }
}

/// Where one remux invocation stands.
#[derive(Clone, Copy, Debug, PartialEq, Eq, Structural)]
pub enum RemuxPhase {
    /// Draining the input byte streams into staged files.
    Staging,
    /// Selecting streams, merging, tagging and copying packets.
    Muxing,
    /// Re-exposing the finished output as a byte stream.
    Restreaming,
    /// The output was fully restreamed.
    Done,
    /// The operation was aborted by a failure; no output exists.
    Failed,
    /// The consumer dropped its handle; the operation stopped without an
    /// error and no output exists.
    Cancelled,
}

/// One remux invocation, from workspace acquisition to a terminal phase.
pub struct RemuxSession {
    phase: RemuxPhase,
    workspace: Workspace,
    output: Option<OutputContainer>,
}

impl RemuxSession {
    /// The current phase.
    pub closed spec fn spec_phase(self) -> RemuxPhase {
        self.phase
    }

    /// Whether the invocation's workspace still exists.
    pub closed spec fn spec_workspace_active(self) -> bool {
        self.workspace.spec_active()
    }

    /// The remultiplexed output, once muxing succeeded.
    pub closed spec fn spec_output(self) -> Option<OutputContainer> {
        self.output
    }

    /// The phase is terminal: nothing more happens in this invocation.
    pub open spec fn spec_terminal(self) -> bool {
        self.spec_phase() == RemuxPhase::Done || self.spec_phase() == RemuxPhase::Failed
            || self.spec_phase() == RemuxPhase::Cancelled
    }

    /// Well-formedness: the workspace lives exactly through staging and
    /// muxing, and an output container can only exist from successful
    /// muxing to completion — failed or cancelled invocations hold none.
    pub closed spec fn wf(self) -> bool {
        &&& self.workspace.spec_active() <==> (self.phase == RemuxPhase::Staging || self.phase
            == RemuxPhase::Muxing)
        &&& self.output is Some ==> (self.phase == RemuxPhase::Restreaming || self.phase
            == RemuxPhase::Done)
    }

    /// The current phase, observed.
    pub fn phase(&self) -> (r: RemuxPhase)
        ensures
            r == self.spec_phase(),
    {
        self.phase
    }

    /// Whether the workspace still exists, observed.
    pub fn workspace_active(&self) -> (r: bool)
        ensures
            r == self.spec_workspace_active(),
    {
        self.workspace.is_active()
    }

    /// Hands the finished output out of the session.
    pub fn into_output(self) -> (r: Option<OutputContainer>)
        ensures
            r == self.spec_output(),
    {
        self.output
    }

    /// Takes the finished output out of a live session, leaving the
    /// session to finish restreaming.
    pub fn take_output(&mut self) -> (r: Option<OutputContainer>)
        requires
            old(self).wf(),
        ensures
            final(self).wf(),
            r == old(self).spec_output(),
            final(self).spec_output() is None,
            final(self).spec_phase() == old(self).spec_phase(),
            final(self).spec_workspace_active() == old(self).spec_workspace_active(),
    {
        self.output.take()
    }

    /// Opens an invocation: the workspace is acquired and staging begins.
    pub fn start() -> (s: RemuxSession)
        ensures
            s.wf(),
            s.spec_phase() == RemuxPhase::Staging,
            s.spec_workspace_active(),
    {
        RemuxSession { phase: RemuxPhase::Staging, workspace: Workspace::create(), output: None }
    }

    /// Every input byte stream was fully drained into a staged file.
    pub fn staged(&mut self)
        requires
            old(self).wf(),
            old(self).spec_phase() == RemuxPhase::Staging,
        ensures
            final(self).wf(),
            final(self).spec_phase() == RemuxPhase::Muxing,
            final(self).spec_workspace_active(),
    {
        self.phase = RemuxPhase::Muxing;
    }

    /// Runs the remux engine over the staged, demultiplexed inputs.
    ///
    /// On success the output container exists and restreaming begins; on
    /// failure the whole operation aborts with a remux error and no
    /// output exists. Either way the workspace is destroyed before the
    /// call returns.
    pub fn mux(
        &mut self,
        input_audio: &InputContainer,
        input_cover: Option<&InputContainer>,
        metadata: &Metadata,
    ) -> (r: Result<(), Error>)
        requires
            old(self).wf(),
            old(self).spec_phase() == RemuxPhase::Muxing,
            spec_wf_input(*input_audio),
            input_cover is Some ==> spec_wf_input(*input_cover->Some_0),
        ensures
            final(self).wf(),
            !final(self).spec_workspace_active(),
            r is Ok <==> spec_selected_audio(*input_audio) is Some,
            r is Ok ==> final(self).spec_phase() == RemuxPhase::Restreaming
                && (final(self).spec_output() matches Some(out) && spec_remux_ok(*input_audio,
                match input_cover {
                    Some(c) => Some(*c),
                    None => None,
                }, *metadata, out)),
            r is Err ==> final(self).spec_phase() == RemuxPhase::Failed
                && final(self).spec_output() is None
                && (r->Err_0 matches Error::RemuxError(msg) && msg@ == "cannot find stream"@),
    {
        let result = remux(input_audio, input_cover, metadata);
        self.workspace.destroy();
        match result {
            Ok(out) => {
                self.output = Some(out);
                self.phase = RemuxPhase::Restreaming;
                Ok(())
            },
            Err(e) => {
                self.output = None;
                self.phase = RemuxPhase::Failed;
                Err(e)
            },
        }
    }

    /// The finished output was fully forwarded through the transport.
    pub fn restreamed(&mut self)
        requires
            old(self).wf(),
            old(self).spec_phase() == RemuxPhase::Restreaming,
        ensures
            final(self).wf(),
            final(self).spec_phase() == RemuxPhase::Done,
            !final(self).spec_workspace_active(),
    {
        self.phase = RemuxPhase::Done;
    }

    /// A failure surfaced at any point before completion: the operation
    /// aborts, the workspace is destroyed, and no output survives.
    pub fn fail(&mut self)
        requires
            old(self).wf(),
            !old(self).spec_terminal(),
        ensures
            final(self).wf(),
            final(self).spec_phase() == RemuxPhase::Failed,
            !final(self).spec_workspace_active(),
            final(self).spec_output() is None,
    {
        self.workspace.destroy();
        self.output = None;
        self.phase = RemuxPhase::Failed;
    }

    /// The consumer dropped its stream handle: the invocation stops
    /// without raising an error, the workspace is destroyed, and no
    /// output survives.
    pub fn cancel(&mut self)
        requires
            old(self).wf(),
            !old(self).spec_terminal(),
        ensures
            final(self).wf(),
            final(self).spec_phase() == RemuxPhase::Cancelled,
            !final(self).spec_workspace_active(),
            final(self).spec_output() is None,
    {
        self.workspace.destroy();
        self.output = None;
        self.phase = RemuxPhase::Cancelled;
    }
}

/// Once an invocation reaches any terminal phase — success, failure or
/// cancellation — its temporary workspace no longer exists: no exit path
/// leaks it.
pub proof fn lemma_terminal_releases_workspace(s: RemuxSession)
    requires
        s.wf(),
        s.spec_terminal(),
    ensures
        !s.spec_workspace_active(),
{
}

/// A failed or cancelled invocation holds no output container: partial
/// output is never left behind or returned.
pub proof fn lemma_no_partial_output(s: RemuxSession)
    requires
        s.wf(),
        s.spec_phase() == RemuxPhase::Failed || s.spec_phase() == RemuxPhase::Cancelled,
    ensures
        s.spec_output() is None,
{
}

} // verus!
