//! Completions: what to ask of the remote endpoint for a position in a
//! document, and what its answer means in the document.

use crate::buffer::{Buffer, BufferSnapshot, BufferView};
use crate::cody::{Cody, CodyView};
use crate::notification::{sent, Notification};
use crate::point::{lsp_of_point, point_from_lsp, point_of_lsp, point_to_lsp, PointUtf16};
use crate::request;
use crate::server::Error;
use crate::sync::{SyncStep, SyncStepView};
use crate::text::{clip_left, clip_point_utf16};
use std::ops::Range;
use vstd::prelude::*;

verus! {

broadcast use vstd::std_specs::hash::group_hash_axioms;

/// To which side a place in a document holds when text is inserted at it.
#[derive(Clone, Copy, Debug, PartialEq, Eq, Structural)]
pub enum Bias {
    Left,
    Right,
}

/// A place in a document that the host can follow through later edits: a
/// boundary of the content that the remote endpoint has seen, and the side
/// to which it holds.
#[derive(Clone, Copy, Debug, PartialEq, Eq, Structural)]
pub struct Anchor {
    pub point: PointUtf16,
    pub bias: Bias,
}

/// A completion in the coordinates of the document.
#[derive(Debug, PartialEq, Eq)]
pub struct Completion {
    pub uuid: String,
    pub range: Range<Anchor>,
    pub text: String,
}

pub struct CompletionView {
    pub uuid: Seq<char>,
    pub start: Anchor,
    pub end: Anchor,
    pub text: Seq<char>,
}

impl View for Completion {
    type V = CompletionView;

    open spec fn view(&self) -> CompletionView {
        CompletionView {
            uuid: self.uuid@,
            start: self.range.start,
            end: self.range.end,
            text: self.text@,
        }
    }
}

/// What to ask of the remote endpoint, and what to wait for before asking.
#[derive(Clone, Debug, PartialEq, Eq)]
pub struct CompletionRequest {
    /// The wire name of the operation.
    pub method: &'static str,
    pub params: request::GetCompletionsParams,
    /// Where the document stands. While it is pending, the changes have to
    /// be applied before the request goes out.
    pub sync: SyncStep,
}

pub struct CompletionRequestView {
    pub method: Seq<char>,
    pub params: request::GetCompletionsParamsView,
    pub sync: SyncStepView,
}

impl View for CompletionRequest {
    type V = CompletionRequestView;

    open spec fn view(&self) -> CompletionRequestView {
        CompletionRequestView { method: self.method@, params: self.params@, sync: self.sync@ }
    }
}

/// The completion that the remote endpoint proposes, in a document with
/// the content `text`: its ends are clipped to the content, the start
/// holding to the left and the end to the right.
pub open spec fn completion_of(
    text: Seq<char>,
    proposed: request::CompletionView,
) -> CompletionView {
    CompletionView {
        uuid: proposed.id,
        start: Anchor {
            point: clip_left(text, point_of_lsp(proposed.range.start)),
            bias: Bias::Left,
        },
        end: Anchor { point: clip_left(text, point_of_lsp(proposed.range.end)), bias: Bias::Right },
        text: proposed.insert_text,
    }
}

/// The views of a sequence of completions.
pub open spec fn completions_view(completions: Seq<Completion>) -> Seq<CompletionView> {
    completions.map_values(|completion: Completion| completion@)
}

/// The identifiers of a sequence of completions.
pub open spec fn uuids_of(completions: Seq<Completion>) -> Seq<Seq<char>> {
    completions.map_values(|completion: Completion| completion.uuid@)
}

/// The texts of a sequence of strings.
pub open spec fn texts_of(texts: Seq<String>) -> Seq<Seq<char>> {
    texts.map_values(|text: String| text@)
}

/// Brings the completions that the remote endpoint proposes into the
/// coordinates of the document, whose content is the one that the
/// endpoint has seen.
pub fn completions_from(
    result: &request::GetCompletionsResult,
    snapshot: &BufferSnapshot,
) -> (completions: Vec<Completion>)
    ensures
        completions_view(completions@) == result.completions@.map_values(
            |proposed: request::Completion| completion_of(snapshot@.text, proposed@),
        ),
{
    let mut completions: Vec<Completion> = Vec::new();
    let mut i: usize = 0;
    while i < result.completions.len()
        invariant
            i <= result.completions.len(),
            completions.len() == i,
            forall|j: int|
                0 <= j < i ==> (#[trigger] completions@[j])@ == completion_of(
                    snapshot@.text,
                    result.completions@[j]@,
                ),
        decreases result.completions.len() - i,
    {
        let proposed = &result.completions[i];
        let start = clip_point_utf16(snapshot.text.as_str(), point_from_lsp(proposed.range.start));
        let end = clip_point_utf16(snapshot.text.as_str(), point_from_lsp(proposed.range.end));
        completions.push(
            Completion {
                uuid: proposed.id.clone(),
                range: Range {
                    start: Anchor { point: start, bias: Bias::Left },
                    end: Anchor { point: end, bias: Bias::Right },
                },
                text: proposed.insert_text.clone(),
            },
        );
        i += 1;
    }
    completions
}

impl CodyView {
    /// What to ask for completions at `position` of a document that is
    /// open at the remote endpoint.
    pub open spec fn completion_request(
        self,
        method: Seq<char>,
        buffer: BufferView,
        position: PointUtf16,
    ) -> CompletionRequestView {
        let registered = self.server.registered()[buffer.id];
        CompletionRequestView {
            method,
            params: request::GetCompletionsParamsView {
                uri: registered.uri,
                position: lsp_of_point(position),
            },
            sync: registered.report_changes(buffer.version),
        }
    }
}

impl Cody {
    /// Asks for the first completions at a position of a document.
    pub fn completions(&mut self, buffer: &Buffer, position: PointUtf16) -> (result: (
        Option<Notification>,
        Result<CompletionRequest, Error>,
    ))
        ensures
            final(self)@ == old(self)@.register(buffer@),
            sent(result.0) == old(self)@.register_sends(buffer@),
            match result.1 {
                Ok(request) => old(self)@.server.is_authorized() && request@
                    == final(self)@.completion_request(
                    request::GetCompletions::METHOD@,
                    buffer@,
                    position,
                ),
                Err(error) => old(self)@.server.not_authorized() == Some(error@),
            },
            old(self)@.wf() ==> final(self)@.wf(),
    {
        self.request_completions(request::GetCompletions::METHOD, buffer, position)
    }

    /// Asks for further completions at a position of a document.
    pub fn completions_cycling(&mut self, buffer: &Buffer, position: PointUtf16) -> (result: (
        Option<Notification>,
        Result<CompletionRequest, Error>,
    ))
        ensures
            final(self)@ == old(self)@.register(buffer@),
            sent(result.0) == old(self)@.register_sends(buffer@),
            match result.1 {
                Ok(request) => old(self)@.server.is_authorized() && request@
                    == final(self)@.completion_request(
                    request::GetCompletionsCycling::METHOD@,
                    buffer@,
                    position,
                ),
                Err(error) => old(self)@.server.not_authorized() == Some(error@),
            },
            old(self)@.wf() ==> final(self)@.wf(),
    {
        self.request_completions(request::GetCompletionsCycling::METHOD, buffer, position)
    }

    /// Registers the document, and says what to ask of the remote endpoint
    /// where the user is authorized. The request carries the address under
    /// which the document is open and the position in wire coordinates,
    /// and says whether changes have to be applied first.
    fn request_completions(
        &mut self,
        method: &'static str,
        buffer: &Buffer,
        position: PointUtf16,
    ) -> (result: (Option<Notification>, Result<CompletionRequest, Error>))
        ensures
            final(self)@ == old(self)@.register(buffer@),
            sent(result.0) == old(self)@.register_sends(buffer@),
            match result.1 {
                Ok(request) => old(self)@.server.is_authorized() && request@
                    == final(self)@.completion_request(method@, buffer@, position),
                Err(error) => old(self)@.server.not_authorized() == Some(error@),
            },
            old(self)@.wf() ==> final(self)@.wf(),
    {
        let opened = self.register_buffer(buffer);
        let server = match self.server.as_authenticated() {
            Ok(server) => server,
            Err(error) => {
                return (opened, Err(error));
            },
        };
        let request = match server.registered_buffers.get(&buffer.id) {
            Some(registered) => CompletionRequest {
                method,
                params: request::GetCompletionsParams {
                    uri: registered.uri.clone(),
                    position: point_to_lsp(position),
                },
                sync: registered.report_changes(buffer),
            },
            None => {
                proof {
                    assert(old(self)@.register(buffer@).server.registered().dom().contains(
                        buffer@.id,
                    ));
                }
                vstd::pervasive::unreached()
            },
        };
        (opened, Ok(request))
    }

    /// The user took a completion: says what to tell the remote endpoint.
    pub fn accept_completion(&mut self, completion: &Completion) -> (params: Result<
        request::NotifyAcceptedParams,
        Error,
    >)
        ensures
            final(self)@ == old(self)@,
            match params {
                Ok(params) => old(self)@.server.is_authorized() && params.uuid@
                    == completion.uuid@,
                Err(error) => old(self)@.server.not_authorized() == Some(error@),
            },
    {
        match self.server.as_authenticated() {
            Ok(_) => Ok(request::NotifyAcceptedParams { uuid: completion.uuid.clone() }),
            Err(error) => Err(error),
        }
    }

    /// The user passed over completions: says what to tell the remote endpoint.
    pub fn discard_completions(&mut self, completions: &[Completion]) -> (params: Result<
        request::NotifyRejectedParams,
        Error,
    >)
        ensures
            final(self)@ == old(self)@,
            match params {
                Ok(params) => old(self)@.server.is_authorized() && texts_of(params.uuids@)
                    == uuids_of(completions@),
                Err(error) => old(self)@.server.not_authorized() == Some(error@),
            },
    {
        match self.server.as_authenticated() {
            Ok(_) => {},
            Err(error) => {
                return Err(error);
            },
        }
        let mut uuids: Vec<String> = Vec::new();
        let mut i: usize = 0;
        while i < completions.len()
            invariant
                i <= completions.len(),
                uuids.len() == i,
                forall|j: int| 0 <= j < i ==> (#[trigger] uuids@[j])@ == completions@[j].uuid@,
            decreases completions.len() - i,
        {
            uuids.push(completions[i].uuid.clone());
            i += 1;
        }
        Ok(request::NotifyRejectedParams { uuids })
    }
}

} // verus!
