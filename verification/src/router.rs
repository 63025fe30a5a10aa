//! The command router: for one inbound message, the exact ordered sequence of
//! user-visible effects — feedback markers, posted segments, and the single
//! external generation call — and the decisions the surrounding binary acts
//! on. Each invocation is independent: the trace is a function of the
//! message's own text and of the client's reply alone.

use vstd::prelude::*;

use crate::command::{QUERY_START, is_generate, is_marked, is_ping, lemma_generate_is_marked,
    lemma_generate_not_ping, query_of, query_spec};
use crate::formatter::{MESSAGE_LIMIT, concat_segs, format_spec, lemma_format_reconstructs};
use crate::outcome::{GenerationOutcome, OutcomeView, failure_text_spec};
use crate::text::{has_prefix, str_equal, trim, views_of};

verus! {

/// A reaction-style acknowledgement attached to the inbound message.
#[derive(Clone, Copy, Debug, PartialEq, Eq, Structural)]
pub enum Marker {
    InProgress,
    Success,
    Failure,
}

/// One user-visible step of handling a message, in the order performed.
#[derive(Debug, PartialEq, Eq)]
pub enum Effect {
    /// Attach a feedback marker to the message.
    React(Marker),
    /// Post one outbound segment to the conversation.
    Post(String),
    /// Invoke the external generation client with this query.
    CallGenerate(String),
}

/// The mathematical value of an `Effect`.
pub enum EffectView {
    React(Marker),
    Post(Seq<char>),
    CallGenerate(Seq<char>),
}

impl View for Effect {
    type V = EffectView;

    open spec fn view(&self) -> EffectView {
        match self {
            Effect::React(m) => EffectView::React(*m),
            Effect::Post(s) => EffectView::Post(s@),
            Effect::CallGenerate(q) => EffectView::CallGenerate(q@),
        }
    }
}

/// The views of a sequence of effects.
pub open spec fn effect_views(v: Seq<Effect>) -> Seq<EffectView> {
    v.map_values(|e: Effect| e@)
}

/// The terminal marker an outcome earns.
pub open spec fn outcome_marker_spec(o: OutcomeView) -> Marker {
    match o {
        OutcomeView::Success(_) => Marker::Success,
        _ => Marker::Failure,
    }
}

/// The segments posted for an outcome: a success payload as split by the
/// formatter, a failure's display text as a single segment.
pub open spec fn outcome_segments_spec(o: OutcomeView) -> Seq<Seq<char>> {
    match o {
        OutcomeView::Success(body) => format_spec(body),
        _ => seq![failure_text_spec(o)],
    }
}

/// Each segment as a posting effect, in order.
pub open spec fn posts_of(segs: Seq<Seq<char>>) -> Seq<EffectView> {
    segs.map_values(|s: Seq<char>| EffectView::Post(s))
}

/// What follows the external call: every segment posted in order, then the
/// terminal marker.
pub open spec fn outcome_effects_spec(o: OutcomeView) -> Seq<EffectView> {
    posts_of(outcome_segments_spec(o)) + seq![EffectView::React(outcome_marker_spec(o))]
}

/// The full ordered effect trace for one inbound message: `text` is the
/// message's text, `outcome` the reply the external generation client gives
/// when invoked. Text without a command marker, and marker-prefixed text
/// matching no command, produce the empty trace; the `outcome` argument is
/// consulted only when the text is a generation command.
pub open spec fn route_spec(text: Seq<char>, outcome: OutcomeView) -> Seq<EffectView> {
    if !is_marked(text) {
        Seq::empty()
    } else if is_generate(text) {
        seq![
            EffectView::React(Marker::InProgress),
            EffectView::CallGenerate(query_spec(text)),
        ] + outcome_effects_spec(outcome)
    } else if is_ping(text) {
        seq![EffectView::Post("Pong!"@)]
    } else {
        Seq::empty()
    }
}

/// What the router decides to do with a message, before any outside work.
#[derive(Debug, PartialEq, Eq)]
pub enum Dispatch {
    /// Text without a marker, or marker-prefixed text matching no command:
    /// nothing is done.
    Ignore,
    /// Post this single canned reply.
    Reply(String),
    /// Attach the in-progress marker, call the generation client with this
    /// query, and conclude from what it returns.
    Generate(String),
}

/// Decides what a message's text asks for. The generation command is tried
/// first, then the ping command on the trimmed text; everything else is
/// ignored.
pub fn dispatch(text: &str) -> (d: Dispatch)
    requires
        is_generate(text@) ==> text@.len() >= QUERY_START,
    ensures
        d is Generate <==> (is_marked(text@) && is_generate(text@)),
        d is Reply <==> (is_marked(text@) && !is_generate(text@) && is_ping(text@)),
        d matches Dispatch::Generate(q) ==> q@ == query_spec(text@),
        d matches Dispatch::Reply(r) ==> r@ == "Pong!"@,
{
    let n: usize = text.unicode_len();
    if n == 0 {
        return Dispatch::Ignore;
    }
    let c0 = text.get_char(0);
    if c0 != '.' && c0 != '!' {
        return Dispatch::Ignore;
    }
    if has_prefix(text, ".chatgpt") {
        return Dispatch::Generate(query_of(text));
    }
    if str_equal(trim(text), "!ping") {
        return Dispatch::Reply(String::from_str("Pong!"));
    }
    Dispatch::Ignore
}

/// How a generation outcome is reported back: the segments to post, in
/// order, then the terminal marker to attach.
pub struct Conclusion {
    pub segments: Vec<String>,
    pub marker: Marker,
}

/// Turns the generation client's outcome into what the user sees: a success
/// payload is split into segments and earns the success marker; a failure's
/// display text is the single segment and earns the failure marker.
pub fn conclude(outcome: GenerationOutcome) -> (c: Conclusion)
    ensures
        views_of(c.segments@) =~= outcome_segments_spec(outcome@),
        c.marker == outcome_marker_spec(outcome@),
{
    match outcome {
        GenerationOutcome::Success(body) => {
            let segments = crate::formatter::format(body);
            Conclusion { segments, marker: Marker::Success }
        },
        other => {
            let t = other.failure_text();
            let segments = vec![t];
            proof {
                assert(views_of(segments@) =~= outcome_segments_spec(other@));
            }
            Conclusion { segments, marker: Marker::Failure }
        },
    }
}

/// Appending one effect appends its view.
proof fn lemma_effect_views_snoc(v: Seq<Effect>, w: Seq<Effect>)
    requires
        w.len() == v.len() + 1,
        forall|k: int| 0 <= k < v.len() ==> w[k] == v[k],
    ensures
        effect_views(w) =~= effect_views(v).push(w[v.len() as int]@),
{
}

/// Appending one segment appends its posting effect.
proof fn lemma_posts_of_snoc(segs: Seq<Seq<char>>, s: Seq<char>)
    ensures
        posts_of(segs.push(s)) =~= posts_of(segs).push(EffectView::Post(s)),
{
}

/// Handles one inbound message, returning the effects to perform, in order:
/// the full trace `route_spec` gives for the message's text and the client's
/// reply. `outcome` stands for what the external generation client returns
/// when invoked with the extracted query; it is ignored unless the text is a
/// generation command.
pub fn route(text: &str, outcome: GenerationOutcome) -> (effects: Vec<Effect>)
    requires
        is_generate(text@) ==> text@.len() >= QUERY_START,
    ensures
        effect_views(effects@) =~= route_spec(text@, outcome@),
{
    let mut effects: Vec<Effect> = Vec::new();
    match dispatch(text) {
        Dispatch::Ignore => {
            proof {
                assert(effect_views(effects@) =~= route_spec(text@, outcome@));
            }
        },
        Dispatch::Reply(r) => {
            effects.push(Effect::Post(r));
            proof {
                assert(effect_views(effects@) =~= route_spec(text@, outcome@));
            }
        },
        Dispatch::Generate(q) => {
            let ghost query: Seq<char> = q@;
            effects.push(Effect::React(Marker::InProgress));
            effects.push(Effect::CallGenerate(q));
            let ghost head: Seq<EffectView> = effect_views(effects@);
            proof {
                assert(head =~= seq![
                    EffectView::React(Marker::InProgress),
                    EffectView::CallGenerate(query),
                ]);
            }
            let c = conclude(outcome);
            let ghost seg_views: Seq<Seq<char>> = views_of(c.segments@);
            let mut j: usize = 0;
            while j < c.segments.len()
                invariant
                    0 <= j <= c.segments.len(),
                    seg_views == views_of(c.segments@),
                    seg_views =~= outcome_segments_spec(outcome@),
                    c.marker == outcome_marker_spec(outcome@),
                    is_marked(text@) && is_generate(text@),
                    query == query_spec(text@),
                    head =~= seq![
                        EffectView::React(Marker::InProgress),
                        EffectView::CallGenerate(query),
                    ],
                    effect_views(effects@) =~= head + posts_of(seg_views.take(j as int)),
                decreases c.segments.len() - j,
            {
                let ghost pre = effects@;
                let s = c.segments[j].clone();
                let ghost sv = s@;
                proof {
                    assert(sv == seg_views[j as int]);
                }
                effects.push(Effect::Post(s));
                proof {
                    lemma_effect_views_snoc(pre, effects@);
                    assert(effects@[pre.len() as int]@ == EffectView::Post(sv));
                    lemma_posts_of_snoc(seg_views.take(j as int), seg_views[j as int]);
                    assert(seg_views.take(j as int + 1) =~= seg_views.take(j as int).push(
                        seg_views[j as int],
                    ));
                    assert(effect_views(effects@) =~= head + posts_of(
                        seg_views.take(j as int + 1),
                    ));
                }
                j = j + 1;
            }
            let ghost pre = effects@;
            effects.push(Effect::React(c.marker));
            proof {
                lemma_effect_views_snoc(pre, effects@);
                assert(effects@[pre.len() as int]@ == EffectView::React(
                    outcome_marker_spec(outcome@),
                ));
                assert(seg_views.take(c.segments@.len() as int) =~= seg_views);
                assert(effect_views(pre) =~= head + posts_of(seg_views));
                assert(effect_views(effects@) =~= (head + posts_of(seg_views)).push(
                    EffectView::React(outcome_marker_spec(outcome@)),
                ));
                assert(posts_of(seg_views) == posts_of(outcome_segments_spec(outcome@)));
                assert(effect_views(effects@) =~= head + (posts_of(outcome_segments_spec(outcome@))
                    + seq![EffectView::React(outcome_marker_spec(outcome@))]));
                assert(effect_views(effects@) =~= route_spec(text@, outcome@));
            }
        },
    }
    effects
}

/// Law: a message that begins with no command marker produces no effects at
/// all — no marker, no post, no external call — whatever the client would
/// have returned.
pub proof fn lemma_plain_text_ignored(text: Seq<char>, outcome: OutcomeView)
    requires
        !is_marked(text),
    ensures
        route_spec(text, outcome) =~= Seq::<EffectView>::empty(),
{
}

/// Law: unless the text is a generation command, the trace is the same for
/// every client outcome: the client is never consulted.
pub proof fn lemma_outcome_ignored_without_generate(
    text: Seq<char>,
    o1: OutcomeView,
    o2: OutcomeView,
)
    requires
        !is_generate(text),
    ensures
        route_spec(text, o1) =~= route_spec(text, o2),
{
}

/// Law: the trace of anything but a generation command contains no external
/// call.
pub proof fn lemma_no_call_without_generate(text: Seq<char>, outcome: OutcomeView)
    requires
        !is_generate(text),
    ensures
        forall|i: int|
            0 <= i < route_spec(text, outcome).len() ==> !(route_spec(text, outcome)[i]
                is CallGenerate),
{
}

/// Law: a ping earns exactly one posted segment — the canned reply — and no
/// feedback marker and no external call.
pub proof fn lemma_ping_replies_pong(text: Seq<char>, outcome: OutcomeView)
    requires
        is_marked(text),
        is_ping(text),
    ensures
        route_spec(text, outcome) =~= seq![EffectView::Post("Pong!"@)],
{
    if is_generate(text) {
        lemma_generate_not_ping(text);
    }
}

/// Law: when the client answers that the credential was not accepted, a
/// generation command's trace is exactly: the in-progress marker, the call,
/// one posted segment holding the unauthorized display text, and the failure
/// marker — in particular, no success marker.
pub proof fn lemma_unauthorized_feedback(text: Seq<char>)
    requires
        is_generate(text),
        text.len() >= QUERY_START,
    ensures
        route_spec(text, OutcomeView::Unauthorized) =~= seq![
            EffectView::React(Marker::InProgress),
            EffectView::CallGenerate(query_spec(text)),
            EffectView::Post("Unauthorized, refresh token?"@),
            EffectView::React(Marker::Failure),
        ],
{
    lemma_generate_is_marked(text);
    assert(posts_of(seq![failure_text_spec(OutcomeView::Unauthorized)]) =~= seq![
        EffectView::Post("Unauthorized, refresh token?"@),
    ]);
}

/// Law: when the client answers with a payload under the message-length
/// ceiling, a generation command's trace is exactly: the in-progress marker,
/// the call, the payload posted as one segment, and the success marker — in
/// that order.
pub proof fn lemma_success_feedback(text: Seq<char>, body: Seq<char>)
    requires
        is_generate(text),
        text.len() >= QUERY_START,
        body.len() < MESSAGE_LIMIT as int,
    ensures
        route_spec(text, OutcomeView::Success(body)) =~= seq![
            EffectView::React(Marker::InProgress),
            EffectView::CallGenerate(query_spec(text)),
            EffectView::Post(body),
            EffectView::React(Marker::Success),
        ],
{
    lemma_generate_is_marked(text);
    assert(format_spec(body) =~= seq![body]);
    assert(posts_of(seq![body]) =~= seq![EffectView::Post(body)]);
}

/// Law: every generation attempt's trace opens with exactly one in-progress
/// marker, placed before the external call, and closes with exactly one
/// terminal marker — success for a success outcome, failure otherwise — with
/// no other marker anywhere in between.
pub proof fn lemma_generate_marker_discipline(text: Seq<char>, outcome: OutcomeView)
    requires
        is_generate(text),
    ensures
        ({
            let t = route_spec(text, outcome);
            &&& t.len() >= 3
            &&& t[0] == EffectView::React(Marker::InProgress)
            &&& t[1] == EffectView::CallGenerate(query_spec(text))
            &&& t.last() == EffectView::React(outcome_marker_spec(outcome))
            &&& forall|i: int| 0 < i < t.len() - 1 ==> !(t[i] is React)
        }),
{
    lemma_generate_is_marked(text);
    let t = route_spec(text, outcome);
    let segs = outcome_segments_spec(outcome);
    assert(segs.len() == 1 || segs.len() == 2);
    assert forall|i: int| 0 < i < t.len() - 1 implies !(t[i] is React) by {
        if i >= 2 {
            assert(t[i] == posts_of(segs)[i - 2]);
            assert(posts_of(segs)[i - 2] == EffectView::Post(segs[i - 2]));
        }
    }
}

/// Law: the segments posted for a success outcome, concatenated in order,
/// reconstruct the payload exactly: no character is lost or duplicated.
pub proof fn lemma_posts_reconstruct_payload(body: Seq<char>)
    ensures
        concat_segs(outcome_segments_spec(OutcomeView::Success(body))) =~= body,
{
    lemma_format_reconstructs(body);
}

} // verus!
