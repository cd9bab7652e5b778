//! What holds of every run, whatever the outside world answers.
//!
//! A run is told here as three lists: the replies that the pipeline took in, the
//! stages that it went through, and the actions that it named in return.

use vstd::prelude::*;
use crate::address::SEPARATOR;
use crate::config::ConfigView;
use crate::error::{Missing, ZapError};
use crate::intent::Refusal;
use crate::lnurl::invoice_url_text;
use crate::pipeline::{
    advance,
    ask_view,
    follows,
    Action,
    ActionView,
    Outcome,
    Pipeline,
    PipelineView,
    Reply,
    ReplyView,
    StageView,
};
use crate::relay::{metadata_lud16, receipts_for_view};

verus! {

/// How many answers a run at `stage` has behind it, counting a run that has ended
/// as one that has them all.
pub open spec fn progress(stage: StageView) -> nat {
    match stage {
        StageView::AwaitingTarget => 0,
        StageView::AwaitingMetadata => 1,
        StageView::AwaitingDescriptor => 2,
        StageView::AwaitingInvoice { .. } => 3,
        StageView::AwaitingAddresses { .. } => 4,
        StageView::AwaitingSession { .. } => 5,
        StageView::AwaitingPayment { .. } => 6,
        StageView::AwaitingReceipt => 7,
        StageView::Done(_) => 8,
    }
}

/// Whether an action reaches out to the payment service or to the Lightning node.
pub open spec fn is_payment_side(action: ActionView) -> bool {
    action is FetchDescriptor || action is FetchInvoice || action is Resolve || action is Connect
        || action is Pay
}

/// The record of a run: what it was set up with, the replies that it took in, the
/// stages that it went through from the first on, and the actions that it named,
/// one for each reply.
pub struct Run {
    pub config: ConfigView,
    pub target: Seq<char>,
    pub replies: Seq<ReplyView>,
    pub stages: Seq<StageView>,
    pub actions: Seq<ActionView>,
}

impl Run {
    /// The pipeline as it stood before the `i`-th reply.
    pub open spec fn before(self, i: int) -> PipelineView {
        PipelineView { config: self.config, target: self.target, stage: self.stages[i] }
    }

    /// Whether the `i`-th reply led from the `i`-th stage to the next one, and to
    /// the `i`-th action, as the pipeline allows.
    pub open spec fn step_at(self, i: int) -> bool {
        follows(self.before(i), self.replies[i], self.stages[i + 1], self.actions[i])
    }

    /// Whether this is the record of what a pipeline may go through: every reply
    /// led to the next stage and to its action as the pipeline allows.
    pub open spec fn valid(self) -> bool {
        &&& self.stages.len() == self.replies.len() + 1
        &&& self.actions.len() == self.replies.len()
        &&& forall|i: int| 0 <= i < self.replies.len() ==> #[trigger] self.step_at(i)
    }

    /// The yield of the signing for which [`advance`] gives the `i`-th step.
    pub open spec fn signed_at(self, i: int) -> Result<Seq<char>, Refusal> {
        choose|signed: Result<Seq<char>, Refusal>| #[trigger]
            advance(self.before(i), self.replies[i], signed) == (
                self.stages[i + 1],
                self.actions[i],
            )
    }
}

/// One step of a pipeline: it either moves on by exactly one stage, naming the
/// action that belongs to the stage it enters, or it ends the run; and once the run
/// has ended, the step changes nothing and names the end again.
pub proof fn lemma_step(at: PipelineView, reply: ReplyView, stage: StageView, action: ActionView)
    requires
        follows(at, reply, stage, action),
    ensures
        at.stage is Done ==> stage == at.stage && action == ActionView::Finish(at.stage->Done_0),
        !(at.stage is Done) ==> progress(stage) == progress(at.stage) + 1 || stage is Done,
        stage is Done <==> action is Finish,
        stage matches StageView::Done(outcome) ==> action == ActionView::Finish(outcome),
        stage is AwaitingMetadata ==> action is Query,
        stage is AwaitingDescriptor ==> action is FetchDescriptor,
        stage is AwaitingInvoice ==> action is FetchInvoice,
        stage is AwaitingAddresses ==> action is Resolve,
        stage is AwaitingSession ==> action is Connect,
        stage is AwaitingPayment ==> action is Pay,
        stage is AwaitingReceipt ==> action is Query,
        !(stage is AwaitingTarget),
        stage matches StageView::Done(outcome) ==> (!(at.stage is Done) ==> (outcome.is_paid()
            <==> at.stage is AwaitingReceipt)),
        stage matches StageView::Done(outcome) ==> (at.stage is AwaitingPayment ==> outcome
            == Outcome::Failed(ZapError::Payment)),
{
    let signed = choose|signed: Result<Seq<char>, Refusal>| #[trigger]
        advance(at, reply, signed) == (stage, action);
    assert(advance(at, reply, signed) == (stage, action));
}

/// The `i`-th step of a valid run is what [`advance`] gives for some yield of the
/// signing, and the action that it names belongs to the stage that it enters.
pub proof fn lemma_step_at(run: Run, i: int)
    requires
        run.valid(),
        0 <= i < run.replies.len(),
    ensures
        advance(run.before(i), run.replies[i], run.signed_at(i)) == (
            run.stages[i + 1],
            run.actions[i],
        ),
        run.actions[i] is Finish <==> run.stages[i + 1] is Done,
        run.actions[i] is FetchDescriptor <==> run.stages[i + 1] is AwaitingDescriptor,
        run.actions[i] is FetchInvoice <==> run.stages[i + 1] is AwaitingInvoice,
        run.actions[i] is Resolve <==> run.stages[i + 1] is AwaitingAddresses,
        run.actions[i] is Connect <==> run.stages[i + 1] is AwaitingSession,
        run.actions[i] is Pay <==> run.stages[i + 1] is AwaitingPayment,
        run.actions[i] is Query <==> run.stages[i + 1] is AwaitingMetadata || run.stages[i + 1]
            is AwaitingReceipt,
        run.stages[i + 1] matches StageView::Done(outcome) ==> run.actions[i]
            == ActionView::Finish(outcome),
{
    assert(run.step_at(i));
    lemma_step(run.before(i), run.replies[i], run.stages[i + 1], run.actions[i]);
}

/// A run never goes back: a later stage has at least the progress of an earlier
/// one, a run that has not ended has moved on by one stage with every reply, and a
/// run that has ended stays as it ended.
pub proof fn lemma_no_way_back(run: Run, i: int, j: int)
    requires
        run.valid(),
        0 <= i <= j <= run.replies.len(),
    ensures
        progress(run.stages[i]) <= progress(run.stages[j]),
        run.stages[i] is Done ==> run.stages[j] == run.stages[i],
        !(run.stages[j] is Done) ==> progress(run.stages[j]) - progress(run.stages[i]) == j - i,
    decreases j - i,
{
    if i < j {
        lemma_no_way_back(run, i, j - 1);
        assert(run.step_at(j - 1));
        lemma_step(run.before(j - 1), run.replies[j - 1], run.stages[j], run.actions[j - 1]);
    }
}

/// In every run the payment is asked for at most once: whatever the replies, no two
/// steps name [`Pay`](crate::pipeline::Action::Pay).
pub proof fn lemma_pays_at_most_once(run: Run, i: int, j: int)
    requires
        run.valid(),
        0 <= i < run.replies.len(),
        0 <= j < run.replies.len(),
        run.actions[i] is Pay,
        run.actions[j] is Pay,
    ensures
        i == j,
{
    lemma_step_at(run, i);
    lemma_step_at(run, j);
    if i < j {
        lemma_no_way_back(run, i + 1, j + 1);
    } else if j < i {
        lemma_no_way_back(run, j + 1, i + 1);
    }
}

/// Once a run has named its end, nothing else follows: every later step names the
/// same end again, so no question, no request and no payment comes after it.
pub proof fn lemma_finish_is_final(run: Run, i: int, j: int)
    requires
        run.valid(),
        0 <= i <= j < run.replies.len(),
        run.actions[i] is Finish,
    ensures
        run.actions[j] == run.actions[i],
{
    lemma_step_at(run, i);
    lemma_step_at(run, j);
    lemma_no_way_back(run, i + 1, j + 1);
}

/// A run that ends at its `i`-th step has named, at every other step, either the
/// same end or an action of a stage that it had reached by then: none that belongs
/// to a later stage.
pub proof fn lemma_nothing_beyond_the_end(run: Run, i: int, j: int)
    requires
        run.valid(),
        0 <= i < run.replies.len(),
        0 <= j < run.replies.len(),
        run.actions[i] is Finish,
        !(run.stages[i] is Done),
    ensures
        j >= i ==> run.actions[j] == run.actions[i],
        j < i ==> progress(run.stages[j + 1]) <= progress(run.stages[i]),
{
    if j >= i {
        lemma_finish_is_final(run, i, j);
    } else {
        lemma_no_way_back(run, j + 1, i);
    }
}

/// If the relays hand out no event for the identifier, the run ends on the notice
/// that the target event was not found, and it asks nothing of the payment service
/// or of the Lightning node at any step.
pub proof fn lemma_missing_target_ends_run(run: Run, i: int, j: int)
    requires
        run.valid(),
        0 <= i < run.replies.len(),
        0 <= j < run.replies.len(),
        run.stages[i] is AwaitingTarget,
        !(run.replies[i] matches ReplyView::Events(events) && events.len() > 0),
    ensures
        run.actions[i] == ActionView::Finish(
            Outcome::Failed(ZapError::NotFound(Missing::TargetEvent)),
        ),
        !is_payment_side(run.actions[j]),
{
    lemma_step_at(run, i);
    lemma_step_at(run, j);
    lemma_nothing_beyond_the_end(run, i, j);
}

/// If the author's metadata gives no lightning address, or an empty one, the run
/// ends on the notice that the lightning address was not found, and it asks
/// nothing of the payment service or of the Lightning node at any step.
pub proof fn lemma_missing_address_ends_run(run: Run, i: int, j: int)
    requires
        run.valid(),
        0 <= i < run.replies.len(),
        0 <= j < run.replies.len(),
        run.stages[i] is AwaitingMetadata,
        run.replies[i] matches ReplyView::Events(events) && events.len() > 0 && (metadata_lud16(
            events[0].content,
        ) == Some(None::<Seq<char>>) || metadata_lud16(events[0].content) == Some(
            Some(Seq::<char>::empty()),
        )),
    ensures
        run.actions[i] == ActionView::Finish(
            Outcome::Failed(ZapError::NotFound(Missing::LightningAddress)),
        ),
        !is_payment_side(run.actions[j]),
{
    lemma_step_at(run, i);
    lemma_step_at(run, j);
    lemma_nothing_beyond_the_end(run, i, j);
}

/// If the lightning address that the metadata gives holds no `@`, the run ends on
/// the notice that its input is malformed, and it asks nothing of any payment
/// service or of the Lightning node at any step.
pub proof fn lemma_malformed_address_ends_run(run: Run, i: int, j: int)
    requires
        run.valid(),
        0 <= i < run.replies.len(),
        0 <= j < run.replies.len(),
        run.stages[i] is AwaitingMetadata,
        run.replies[i] matches ReplyView::Events(events) && events.len() > 0 && (metadata_lud16(
            events[0].content,
        ) matches Some(Some(address)) && address.len() > 0 && !address.contains(SEPARATOR)),
    ensures
        run.actions[i] == ActionView::Finish(Outcome::Failed(ZapError::MalformedInput)),
        !is_payment_side(run.actions[j]),
{
    lemma_step_at(run, i);
    lemma_step_at(run, j);
    lemma_nothing_beyond_the_end(run, i, j);
}

/// If the payment service says that it does not accept zaps, the run ends on the
/// notice that the capability is unsupported, and at no step does it request an
/// invoice from the service's callback, or anything from the Lightning node.
pub proof fn lemma_unsupported_service_ends_run(run: Run, i: int, j: int)
    requires
        run.valid(),
        0 <= i < run.replies.len(),
        0 <= j < run.replies.len(),
        run.stages[i] is AwaitingDescriptor,
        run.replies[i] matches ReplyView::Descriptor(service) && !service.allows_nostr,
    ensures
        run.actions[i] == ActionView::Finish(Outcome::Failed(ZapError::UnsupportedCapability)),
        !(run.actions[j] is FetchInvoice),
        !(run.actions[j] is Resolve),
        !(run.actions[j] is Connect),
        !(run.actions[j] is Pay),
{
    lemma_step_at(run, i);
    lemma_step_at(run, j);
    lemma_nothing_beyond_the_end(run, i, j);
}

/// The payment is the point of no return. Once the payment has been asked for, the
/// run can end in three ways only: the payment failed, a receipt was seen, or none
/// was seen in time; and it ends as paid if and only if the node answered that it
/// has paid. Whichever it is, the payment is not asked for again.
pub proof fn lemma_point_of_no_return(run: Run, i: int, j: int)
    requires
        run.valid(),
        0 <= i < j < run.replies.len(),
        run.actions[i] is Pay,
    ensures
        !(run.actions[j] is Pay),
        run.actions[j] matches ActionView::Finish(outcome) ==> outcome == Outcome::Failed(
            ZapError::Payment,
        ) || outcome == Outcome::Confirmed || outcome == Outcome::Unconfirmed,
        run.actions[j] matches ActionView::Finish(outcome) ==> (outcome.is_paid() <==> run.replies[i
            + 1] is Paid),
{
    lemma_step_at(run, i);
    lemma_step_at(run, j);
    lemma_step_at(run, i + 1);
    if j > i + 1 {
        lemma_no_way_back(run, i + 2, j + 1);
        lemma_no_way_back(run, i + 2, j);
        if !(run.stages[i + 2] is Done) {
            lemma_step_at(run, i + 2);
            lemma_no_way_back(run, i + 3, j + 1);
        }
    }
}

/// A run ends as paid only after the payment was asked for: if some step names a
/// paid end, an earlier step named [`Pay`](crate::pipeline::Action::Pay).
pub proof fn lemma_paid_only_after_pay(run: Run, j: int) -> (i: int)
    requires
        run.valid(),
        0 <= j < run.replies.len(),
        run.stages[0] is AwaitingTarget,
        run.actions[j] matches ActionView::Finish(outcome) && outcome.is_paid(),
    ensures
        0 <= i < j,
        run.actions[i] is Pay,
    decreases j,
{
    lemma_step_at(run, j);
    if run.stages[j] is Done {
        lemma_no_way_back(run, 0, j);
        assert(j > 0);
        lemma_step_at(run, j - 1);
        let i = lemma_paid_only_after_pay(run, j - 1);
        i
    } else {
        assert(run.stages[j] is AwaitingReceipt);
        lemma_no_way_back(run, 0, j);
        assert(j == 7);
        lemma_no_way_back(run, 0, 6);
        lemma_no_way_back(run, 6, 7);
        assert(run.stages[6] is AwaitingPayment);
        lemma_step_at(run, 5);
        5
    }
}

/// An invoice is requested only of a service that accepts zaps and names the key of
/// its receipts: the request goes to that service's callback, carries the amount
/// of the operator's settings, and follows on the service's description at once.
pub proof fn lemma_invoice_request(run: Run, i: int)
    requires
        run.valid(),
        0 <= i < run.replies.len(),
        run.actions[i] is FetchInvoice,
    ensures
        run.stages[i] is AwaitingDescriptor,
        run.replies[i] matches ReplyView::Descriptor(service) && service.allows_nostr
            && service.nostr_pubkey is Some && (run.signed_at(i) matches Ok(request)
            && run.actions[i] == ActionView::FetchInvoice(
            invoice_url_text(service.callback, run.config.amount_sats, request),
        )),
{
    lemma_step_at(run, i);
    if i > 0 {
        lemma_step_at(run, i - 1);
    }
}

/// Data flows forward only. In a run from the start that comes to pay, the payment
/// is named by the sixth step, after a session with the node was opened; the
/// invoice that is paid is the one that the payment service issued at the fourth
/// step; and that service had said at the third step that it accepts zaps.
pub proof fn lemma_pays_the_issued_invoice(run: Run, i: int)
    requires
        run.valid(),
        run.stages[0] is AwaitingTarget,
        0 <= i < run.replies.len(),
        run.actions[i] is Pay,
    ensures
        i == 5,
        run.replies[2] matches ReplyView::Descriptor(service) && service.allows_nostr
            && service.nostr_pubkey is Some,
        run.replies[3] matches ReplyView::Invoice(invoice) && run.actions[i] == ActionView::Pay(
            invoice,
        ),
        run.replies[5] is Connected,
{
    lemma_step_at(run, i);
    lemma_no_way_back(run, 0, i + 1);
    lemma_step_at(run, 2);
    lemma_step_at(run, 3);
    lemma_step_at(run, 4);
}

/// In a run from the start, the receipt is asked for by the seventh step, after the
/// node answered that it has paid; and the question names the event that was
/// zapped and the key that the payment service gave for its receipts.
pub proof fn lemma_receipt_question(run: Run, i: int)
    requires
        run.valid(),
        run.stages[0] is AwaitingTarget,
        0 <= i < run.replies.len(),
        run.stages[i + 1] is AwaitingReceipt,
    ensures
        i == 6,
        run.replies[6] is Paid,
        run.replies[2] matches ReplyView::Descriptor(service) && (service.nostr_pubkey matches Some(
            key,
        ) && run.actions[i] == ask_view(receipts_for_view(run.target, key))),
{
    lemma_no_way_back(run, 0, i + 1);
    lemma_step_at(run, 2);
    lemma_step_at(run, 3);
    lemma_step_at(run, 4);
    lemma_step_at(run, 5);
    lemma_step_at(run, 6);
}

/// If the invoice was paid and the relays then hand out no receipt, the run ends
/// as unconfirmed: the payment stands, and it is neither repeated nor undone.
pub proof fn lemma_missing_receipt_is_no_failure(run: Run, i: int, j: int)
    requires
        run.valid(),
        0 <= i <= j < run.replies.len(),
        run.stages[i] is AwaitingReceipt,
        !(run.replies[i] matches ReplyView::Events(events) && events.len() > 0),
    ensures
        run.actions[j] == ActionView::Finish(Outcome::Unconfirmed),
        !(run.actions[j] is Pay),
{
    lemma_step_at(run, i);
    lemma_finish_is_final(run, i, j);
}

/// The replies of a list, each as plain text and numbers.
pub open spec fn reply_views(replies: Seq<Reply>) -> Seq<ReplyView> {
    replies.map_values(|reply: Reply| reply@)
}

/// The actions of a list, each as plain text and numbers.
pub open spec fn action_views(actions: Seq<Action>) -> Seq<ActionView> {
    actions.map_values(|action: Action| action@)
}

/// Feeds `replies` to `pipeline` one after another, as if the outside world had
/// given them, and collects the actions that the pipeline names in return.
///
/// Nothing is asked of the outside world. What comes back is, with the stages that
/// the pipeline went through, a valid [`Run`], so everything that is proved of
/// runs holds of it.
pub fn replay(pipeline: &mut Pipeline, replies: Vec<Reply>) -> (actions: Vec<Action>)
    ensures
        final(pipeline)@.config == old(pipeline)@.config,
        final(pipeline)@.target == old(pipeline)@.target,
        exists|stages: Seq<StageView>|
            {
                &&& stages.len() == replies.len() + 1
                &&& stages[0] == old(pipeline)@.stage
                &&& stages[replies.len() as int] == final(pipeline)@.stage
                &&& (#[trigger] Run {
                    config: old(pipeline)@.config,
                    target: old(pipeline)@.target,
                    replies: reply_views(replies@),
                    stages,
                    actions: action_views(actions@),
                }.valid())
            },
{
    let ghost config = pipeline@.config;
    let ghost target = pipeline@.target;
    let ghost given = reply_views(replies@);
    let ghost mut stages = seq![pipeline@.stage];
    let mut actions: Vec<Action> = Vec::new();
    for reply in it: replies.into_iter()
        invariant
            it.seq() == replies@,
            given == reply_views(replies@),
            pipeline@.config == config,
            pipeline@.target == target,
            stages.len() == it.index() + 1,
            actions.len() == it.index(),
            stages[0] == old(pipeline)@.stage,
            stages[it.index() as int] == pipeline@.stage,
            forall|i: int|
                0 <= i < it.index() ==> #[trigger] (Run {
                    config,
                    target,
                    replies: given,
                    stages,
                    actions: action_views(actions@),
                }.step_at(i)),
    {
        let ghost so_far = Run {
            config,
            target,
            replies: given,
            stages,
            actions: action_views(actions@),
        };
        let ghost at = it.index() as int;
        let action = pipeline.step(reply);
        proof {
            stages = stages.push(pipeline@.stage);
        }
        actions.push(action);
        proof {
            let now = Run { config, target, replies: given, stages, actions: action_views(actions@) };
            assert forall|i: int| 0 <= i <= at implies #[trigger] now.step_at(i) by {
                if i < at {
                    assert(so_far.step_at(i));
                    assert(now.stages[i] == so_far.stages[i]);
                    assert(now.stages[i + 1] == so_far.stages[i + 1]);
                    assert(now.actions[i] == so_far.actions[i]);
                } else {
                    assert(now.stages[at] == so_far.stages[at]);
                    assert(given[at] == reply@);
                    assert(now.actions[at] == action@);
                }
            }
        }
    }
    proof {
        let whole = Run { config, target, replies: given, stages, actions: action_views(actions@) };
        assert(whole.valid());
    }
    actions
}

} // verus!
