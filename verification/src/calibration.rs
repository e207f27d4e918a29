//! The tag detector calibration: a binary search of the high comparator
//! threshold, driven by the wake-up sources the chip reports.
use crate::command::{CtrlResConf, DacData, IdleParams, LFOFreq, WakeUpSource, idle_payload};
use crate::driver::{wake_answer, Answer, SentCommand};
use crate::command::Command;
use crate::error::{Error, Result};
use vstd::prelude::*;

verus! {

/// The Idle parameters of one calibration step: tag detection and timeout
/// as wake-up sources, the shortest sleep, and `high` as the high
/// comparator threshold (the low one stays 0).
pub open spec fn calib_params(high: u8) -> IdleParams {
    IdleParams {
        wus: WakeUpSource {
            lfo_freq: LFOFreq::KHz32,
            ss_low_pulse: false,
            irq_in_low_pulse: false,
            field_detection: false,
            tag_detection: true,
            timeout: true,
        },
        enter_ctrl: CtrlResConf {
            field_detector_enabled: false,
            iref_enabled: false,
            dac_comp_high: true,
            lfo_enabled: true,
            hfo_enabled: false,
            vdda_enabled: false,
            hibernate_state_enabled: false,
            sleep_state_enabled: true,
        },
        wu_ctrl: CtrlResConf {
            field_detector_enabled: false,
            iref_enabled: true,
            dac_comp_high: true,
            lfo_enabled: true,
            hfo_enabled: true,
            vdda_enabled: true,
            hibernate_state_enabled: false,
            sleep_state_enabled: false,
        },
        leave_ctrl: CtrlResConf {
            field_detector_enabled: false,
            iref_enabled: false,
            dac_comp_high: false,
            lfo_enabled: false,
            hfo_enabled: true,
            vdda_enabled: true,
            hibernate_state_enabled: false,
            sleep_state_enabled: false,
        },
        wu_period: 0,
        osc_start: 0x60,
        dac_start: 0x60,
        dac_data: DacData { low: 0, high },
        swing_count: 0x3F,
        max_sleep: 1,
    }
}

/// The Idle command of a calibration step with threshold `high`.
pub open spec fn calib_command(high: u8) -> SentCommand {
    (Command::Idle, idle_payload(calib_params(high)))
}

/// The search steps halve: 0x80 first, each next one half the one before,
/// down to 0x04 at the sixth.
pub proof fn lemma_calib_steps_halve(k: int)
    requires
        0 <= k < 5,
    ensures
        calib_delta(0) == 0x80,
        calib_delta(k + 1) * 2 == calib_delta(k),
        calib_delta(5) == 0x04,
{
}

/// Every Idle of the calibration lets the chip wake up both by tag
/// detection and by timeout (wake-up byte 0x03: bit 1 and bit 0, 32 kHz
/// LFO), so that a threshold above the tag's signal ends in a timeout
/// rather than in an endless sleep; it compares against `high` with a low
/// threshold of 0, sleeps the shortest time (wake-up period 0, max sleep 1)
/// and swings 0x3F times.
pub proof fn lemma_calib_idle_payload(high: u8)
    ensures
        calib_command(high).0 == Command::Idle,
        calib_command(high).1 == seq![
            0x03u8, 0xA1, 0x00, 0xB8, 0x01, 0x18, 0x00, 0x00, 0x60, 0x60, 0x00, high, 0x3F, 0x01,
        ],
{
    crate::command::lemma_idle_payload_layout(calib_params(high));
    assert(calib_command(high).1 =~= seq![
        0x03u8, 0xA1, 0x00, 0xB8, 0x01, 0x18, 0x00, 0x00, 0x60, 0x60, 0x00, high, 0x3F, 0x01,
    ]);
}

/// Move the threshold `high` by `delta`, failing when it would leave
/// `0..=255`.
pub open spec fn calib_adjust(high: u8, delta: int) -> Result<u8> {
    if 0 <= high + delta <= 255 {
        Ok((high + delta) as u8)
    } else {
        Err(Error::CalibDacOutOfRange { dac_high: high, delta: delta as i16 })
    }
}

/// The step of the `k`-th halving of the search: 0x80, 0x40, ..., 0x04.
pub open spec fn calib_delta(k: int) -> int {
    if k == 0 {
        0x80
    } else if k == 1 {
        0x40
    } else if k == 2 {
        0x20
    } else if k == 3 {
        0x10
    } else if k == 4 {
        0x08
    } else {
        0x04
    }
}

/// One halving step: a timeout wake-up lowers the threshold by `delta`, a
/// tag detection raises it, any other wake-up leaves it.
pub open spec fn calib_step(high: u8, w: WakeUpSource, delta: int) -> Result<u8> {
    if w.timeout {
        calib_adjust(high, -delta)
    } else if w.tag_detection {
        calib_adjust(high, delta)
    } else {
        Ok(high)
    }
}

/// The threshold after the first `k` halving steps, starting from 0xFC and
/// driven by the wake-up sources `ws[1]` to `ws[k]`.
pub open spec fn calib_search(ws: Seq<WakeUpSource>, k: nat) -> Result<u8>
    decreases k,
{
    if k == 0 {
        Ok(0xFC)
    } else {
        match calib_search(ws, (k - 1) as nat) {
            Err(e) => Err(e),
            Ok(h) => calib_step(h, ws[k as int], calib_delta(k - 1)),
        }
    }
}

/// Every threshold the search reaches is a multiple of 4 no larger than
/// 0xFC.
pub proof fn lemma_calib_search_aligned(ws: Seq<WakeUpSource>, k: nat)
    ensures
        calib_search(ws, k) matches Ok(h) ==> h % 4 == 0 && h <= 0xFC,
    decreases k,
{
    if k > 0 {
        lemma_calib_search_aligned(ws, (k - 1) as nat);
    }
}

/// A calibration that succeeds ends on a multiple of 4 no larger than 0xFC.
pub proof fn lemma_calib_result_aligned(ws: Seq<WakeUpSource>)
    ensures
        calib_next(ws) matches CalibNext::Done(Ok(h)) ==> h % 4 == 0 && h <= 0xFC,
{
    reveal(calib_next);
    if ws.len() > 1 {
        lemma_calib_search_aligned(ws, 6);
    }
}

/// Every command a calibration run sends is an Idle that can end by tag
/// detection or by timeout (wake-up byte 0x03).
pub proof fn lemma_calib_run_idles(sent: Seq<SentCommand>, answers: Seq<Answer>, r: Result<u8>)
    requires
        calib_run(sent, answers, r),
    ensures
        forall|j: int|
            0 <= j < sent.len() ==> (#[trigger] sent[j]).0 == Command::Idle && sent[j].1.len() == 14
                && sent[j].1[0] == 0x03,
{
    let ws = calib_wakeups(answers);
    assert forall|j: int| 0 <= j < sent.len() implies (#[trigger] sent[j]).0 == Command::Idle
        && sent[j].1.len() == 14 && sent[j].1[0] == 0x03 by {
        assert(sent[j] == calib_command(calib_next(ws.take(j))->Idle_0));
        lemma_calib_idle_payload(calib_next(ws.take(j))->Idle_0);
    }
}

/// The search fails only by leaving the range of the threshold.
proof fn lemma_calib_search_err(ws: Seq<WakeUpSource>, k: nat)
    ensures
        calib_search(ws, k) matches Err(e) ==> e is CalibDacOutOfRange,
    decreases k,
{
    if k > 0 {
        lemma_calib_search_err(ws, (k - 1) as nat);
    }
}

/// A calibration whose every Idle was answered fails only for a reason
/// the answers give: never for want of a calibration.
pub proof fn lemma_calib_run_answered(sent: Seq<SentCommand>, answers: Seq<Answer>, r: Result<u8>)
    requires
        calib_run(sent, answers, r),
        sent.len() == answers.len(),
    ensures
        r != Err::<u8, Error>(Error::CalibrationNeeded),
{
    reveal(calib_next);
    let ws = calib_wakeups(answers);
    lemma_calib_search_err(ws, 6);
    lemma_calib_search_err(ws, (ws.len() - 1) as nat);
}

/// What the calibration does next.
pub enum CalibNext {
    /// Send another Idle with this high threshold.
    Idle(u8),
    /// Stop with this result.
    Done(Result<u8>),
}

/// What the calibration does after the wake-up sources `ws` were reported,
/// in order: first an Idle with threshold 0, which must wake up by tag
/// detection; then one with 0xFC, which must wake up by timeout; then six
/// halving steps (see [`calib_search`]), each followed by an Idle; and a
/// last step down by 0x04 when the last wake-up was a timeout.
#[verifier::opaque]
pub open spec fn calib_next(ws: Seq<WakeUpSource>) -> CalibNext {
    if ws.len() == 0 {
        CalibNext::Idle(0)
    } else if !ws[0].tag_detection {
        CalibNext::Done(Err(Error::CalibTagDetectionFailed))
    } else if ws.len() == 1 {
        CalibNext::Idle(0xFC)
    } else if !ws[1].timeout {
        CalibNext::Done(Err(Error::CalibTimeoutFailed))
    } else if ws.len() <= 7 {
        match calib_search(ws, (ws.len() - 1) as nat) {
            Err(e) => CalibNext::Done(Err(e)),
            Ok(h) => CalibNext::Idle(h),
        }
    } else {
        match calib_search(ws, 6) {
            Err(e) => CalibNext::Done(Err(e)),
            Ok(h) => CalibNext::Done(
                if ws[7].timeout {
                    calib_adjust(h, -4)
                } else {
                    Ok(h)
                },
            ),
        }
    }
}

/// The wake-up sources that a sequence of Idle answers reports.
pub open spec fn calib_wakeups(answers: Seq<Answer>) -> Seq<WakeUpSource> {
    Seq::new(answers.len(), |j: int| wake_answer(answers[j])->Ok_0)
}

/// A calibration that sent the commands `sent` and read the answers
/// `answers` ended with `r`: each command is the Idle that [`calib_next`]
/// asks for after the answers before it; every answer that was followed by
/// another command reported its wake-up sources; a command left without
/// answer ends in an error; an answer that reports no wake-up sources ends
/// in its error; otherwise the result is the one [`calib_next`] gives.
pub open spec fn calib_run(sent: Seq<SentCommand>, answers: Seq<Answer>, r: Result<u8>) -> bool {
    let ws = calib_wakeups(answers);
    &&& 1 <= sent.len()
    &&& answers.len() <= sent.len() <= answers.len() + 1
    &&& forall|j: int| 0 <= j < sent.len() ==> #[trigger] calib_next(ws.take(j)) is Idle
    &&& forall|j: int|
        0 <= j < sent.len() ==> #[trigger] sent[j] == calib_command(calib_next(ws.take(j))->Idle_0)
    &&& forall|j: int|
        0 <= j < answers.len() && j + 1 < sent.len() ==> #[trigger] wake_answer(answers[j]) is Ok
    &&& sent.len() == answers.len() + 1 ==> r is Err
    &&& sent.len() == answers.len() && answers.len() > 0 ==> match wake_answer(answers.last()) {
        Err(e) => r == Err::<u8, Error>(e),
        Ok(_) => calib_next(ws) == CalibNext::Done(r),
    }
}

/// The calibration has sent one Idle per threshold in `hs` and read one
/// answer to each, reporting the wake-up sources `ws`.
pub(crate) open spec fn calib_state(
    sent: Seq<SentCommand>,
    answers: Seq<Answer>,
    ws: Seq<WakeUpSource>,
    hs: Seq<u8>,
) -> bool {
    &&& sent.len() == answers.len() == ws.len() == hs.len()
    &&& forall|j: int|
        0 <= j < answers.len() ==> #[trigger] wake_answer(answers[j]) == Ok::<WakeUpSource, Error>(
            ws[j],
        )
    &&& forall|j: int| 0 <= j < sent.len() ==> #[trigger] sent[j] == calib_command(hs[j])
    &&& forall|j: int|
        0 <= j < hs.len() ==> #[trigger] calib_next(ws.take(j)) == CalibNext::Idle(hs[j])
}

/// The search only looks at the wake-up sources it has used.
pub(crate) proof fn lemma_calib_search_prefix(ws: Seq<WakeUpSource>, w: WakeUpSource, k: nat)
    requires
        k < ws.len(),
    ensures
        calib_search(ws.push(w), k) == calib_search(ws, k),
    decreases k,
{
    if k > 0 {
        lemma_calib_search_prefix(ws, w, (k - 1) as nat);
        assert(ws.push(w)[k as int] == ws[k as int]);
    }
}

/// A new Idle answered with wake-up sources extends the state.
pub(crate) proof fn lemma_calib_state_push(
    sent: Seq<SentCommand>,
    answers: Seq<Answer>,
    ws: Seq<WakeUpSource>,
    hs: Seq<u8>,
    high: u8,
    a: Answer,
    w: WakeUpSource,
)
    requires
        calib_state(sent, answers, ws, hs),
        calib_next(ws) == CalibNext::Idle(high),
        wake_answer(a) == Ok::<WakeUpSource, Error>(w),
    ensures
        calib_state(sent.push(calib_command(high)), answers.push(a), ws.push(w), hs.push(high)),
{
    let sent2 = sent.push(calib_command(high));
    let answers2 = answers.push(a);
    let ws2 = ws.push(w);
    let hs2 = hs.push(high);
    assert forall|j: int| 0 <= j < answers2.len() implies #[trigger] wake_answer(answers2[j])
        == Ok::<WakeUpSource, Error>(ws2[j]) by {
        if j < answers.len() {
            assert(answers2[j] == answers[j]);
            assert(wake_answer(answers[j]) == Ok::<WakeUpSource, Error>(ws[j]));
        }
    }
    assert forall|j: int| 0 <= j < sent2.len() implies #[trigger] sent2[j] == calib_command(
        hs2[j],
    ) by {
        if j < sent.len() {
            assert(sent[j] == calib_command(hs[j]));
        }
    }
    assert forall|j: int| 0 <= j < hs2.len() implies #[trigger] calib_next(ws2.take(j))
        == CalibNext::Idle(hs2[j]) by {
        assert(ws2.take(j) =~= ws.take(j));
        if j < hs.len() {
            assert(calib_next(ws.take(j)) == CalibNext::Idle(hs[j]));
        } else {
            assert(ws.take(j) =~= ws);
        }
    }
}

/// The wake-up sources of the answers of a state are its `ws`.
proof fn lemma_calib_wakeups(
    sent: Seq<SentCommand>,
    answers: Seq<Answer>,
    ws: Seq<WakeUpSource>,
    hs: Seq<u8>,
)
    requires
        calib_state(sent, answers, ws, hs),
    ensures
        calib_wakeups(answers) == ws,
{
    assert forall|j: int| 0 <= j < ws.len() implies calib_wakeups(answers)[j] == ws[j] by {
        assert(wake_answer(answers[j]) == Ok::<WakeUpSource, Error>(ws[j]));
    }
    assert(calib_wakeups(answers) =~= ws);
}

/// The commands of a state are the Idles that [`calib_next`] asks for.
proof fn lemma_calib_commands(
    sent: Seq<SentCommand>,
    answers: Seq<Answer>,
    ws: Seq<WakeUpSource>,
    hs: Seq<u8>,
    j: int,
)
    requires
        calib_state(sent, answers, ws, hs),
        0 <= j < sent.len(),
    ensures
        calib_next(ws.take(j)) is Idle,
        sent[j] == calib_command(calib_next(ws.take(j))->Idle_0),
        wake_answer(answers[j]) is Ok,
{
    assert(sent[j] == calib_command(hs[j]));
    assert(calib_next(ws.take(j)) == CalibNext::Idle(hs[j]));
    assert(wake_answer(answers[j]) == Ok::<WakeUpSource, Error>(ws[j]));
}

/// A calibration that stops where [`calib_next`] says so has run as
/// [`calib_run`] describes.
pub(crate) proof fn lemma_calib_done(
    sent: Seq<SentCommand>,
    answers: Seq<Answer>,
    ws: Seq<WakeUpSource>,
    hs: Seq<u8>,
    r: Result<u8>,
)
    requires
        calib_state(sent, answers, ws, hs),
        ws.len() > 0,
        calib_next(ws) == CalibNext::Done(r),
    ensures
        calib_run(sent, answers, r),
{
    lemma_calib_wakeups(sent, answers, ws, hs);
    assert forall|j: int| 0 <= j < sent.len() implies #[trigger] calib_next(ws.take(j)) is Idle by {
        lemma_calib_commands(sent, answers, ws, hs, j);
    }
    assert forall|j: int| 0 <= j < sent.len() implies #[trigger] sent[j] == calib_command(
        calib_next(ws.take(j))->Idle_0,
    ) by {
        lemma_calib_commands(sent, answers, ws, hs, j);
    }
    assert forall|j: int| 0 <= j < answers.len() && j + 1 < sent.len() implies #[trigger] wake_answer(
        answers[j],
    ) is Ok by {
        lemma_calib_commands(sent, answers, ws, hs, j);
    }
    assert(answers.last() == answers[ws.len() - 1]);
    assert(wake_answer(answers[ws.len() - 1]) == Ok::<WakeUpSource, Error>(ws[ws.len() - 1]));
}

/// A calibration whose next Idle got no answer has run as [`calib_run`]
/// describes, ending in an error.
pub(crate) proof fn lemma_calib_cut(
    sent: Seq<SentCommand>,
    answers: Seq<Answer>,
    ws: Seq<WakeUpSource>,
    hs: Seq<u8>,
    high: u8,
    e: Error,
)
    requires
        calib_state(sent, answers, ws, hs),
        calib_next(ws) == CalibNext::Idle(high),
    ensures
        calib_run(sent.push(calib_command(high)), answers, Err(e)),
{
    lemma_calib_wakeups(sent, answers, ws, hs);
    let sent2 = sent.push(calib_command(high));
    assert(ws.take(ws.len() as int) =~= ws);
    assert forall|j: int| 0 <= j < sent2.len() implies #[trigger] calib_next(ws.take(j)) is Idle by {
        if j < sent.len() {
            lemma_calib_commands(sent, answers, ws, hs, j);
        }
    }
    assert forall|j: int| 0 <= j < sent2.len() implies #[trigger] sent2[j] == calib_command(
        calib_next(ws.take(j))->Idle_0,
    ) by {
        if j < sent.len() {
            lemma_calib_commands(sent, answers, ws, hs, j);
        }
    }
    assert forall|j: int| 0 <= j < answers.len() && j + 1 < sent2.len() implies #[trigger] wake_answer(
        answers[j],
    ) is Ok by {
        lemma_calib_commands(sent, answers, ws, hs, j);
    }
}

/// A calibration whose next Idle got an answer without wake-up sources
/// has run as [`calib_run`] describes, ending in that answer's error.
pub(crate) proof fn lemma_calib_bad_answer(
    sent: Seq<SentCommand>,
    answers: Seq<Answer>,
    ws: Seq<WakeUpSource>,
    hs: Seq<u8>,
    high: u8,
    a: Answer,
    e: Error,
)
    requires
        calib_state(sent, answers, ws, hs),
        calib_next(ws) == CalibNext::Idle(high),
        wake_answer(a) == Err::<WakeUpSource, Error>(e),
    ensures
        calib_run(sent.push(calib_command(high)), answers.push(a), Err(e)),
{
    lemma_calib_wakeups(sent, answers, ws, hs);
    let answers2 = answers.push(a);
    let ws2 = calib_wakeups(answers2);
    let sent2 = sent.push(calib_command(high));
    assert forall|j: int| 0 <= j <= ws.len() implies #[trigger] ws2.take(j) == ws.take(j) by {
        assert forall|i: int| 0 <= i < j implies ws2[i] == ws[i] by {
            assert(answers2[i] == answers[i]);
            assert(wake_answer(answers[i]) == Ok::<WakeUpSource, Error>(ws[i]));
        }
        assert(ws2.take(j) =~= ws.take(j));
    }
    assert(ws.take(ws.len() as int) =~= ws);
    assert forall|j: int| 0 <= j < sent2.len() implies #[trigger] calib_next(ws2.take(j)) is Idle by {
        assert(ws2.take(j) == ws.take(j));
        if j < sent.len() {
            lemma_calib_commands(sent, answers, ws, hs, j);
        }
    }
    assert forall|j: int| 0 <= j < sent2.len() implies #[trigger] sent2[j] == calib_command(
        calib_next(ws2.take(j))->Idle_0,
    ) by {
        assert(ws2.take(j) == ws.take(j));
        if j < sent.len() {
            lemma_calib_commands(sent, answers, ws, hs, j);
        }
    }
    assert forall|j: int| 0 <= j < answers2.len() && j + 1 < sent2.len() implies #[trigger] wake_answer(
        answers2[j],
    ) is Ok by {
        assert(answers2[j] == answers[j]);
        lemma_calib_commands(sent, answers, ws, hs, j);
    }
    assert(answers2.last() == a);
}

/// Move the calibration threshold `dac_high` by `delta`; see
/// [`calib_adjust`].
pub(crate) fn adjust_calibration_dac_high(dac_high: u8, delta: i16) -> (r: Result<u8>)
    requires
        -256 < delta < 256,
    ensures
        r == calib_adjust(dac_high, delta as int),
{
    let next: i16 = dac_high as i16 + delta;
    if 0 <= next && next <= 255 {
        Ok(next as u8)
    } else {
        Err(Error::CalibDacOutOfRange { dac_high, delta })
    }
}

/// The Idle parameters of a calibration step; see [`calib_params`].
pub(crate) fn calib_params_with(high: u8) -> (r: IdleParams)
    ensures
        r == calib_params(high),
{
    IdleParams {
        wus: WakeUpSource {
            lfo_freq: LFOFreq::KHz32,
            ss_low_pulse: false,
            irq_in_low_pulse: false,
            field_detection: false,
            tag_detection: true,
            timeout: true,
        },
        enter_ctrl: CtrlResConf {
            field_detector_enabled: false,
            iref_enabled: false,
            dac_comp_high: true,
            lfo_enabled: true,
            hfo_enabled: false,
            vdda_enabled: false,
            hibernate_state_enabled: false,
            sleep_state_enabled: true,
        },
        wu_ctrl: CtrlResConf {
            field_detector_enabled: false,
            iref_enabled: true,
            dac_comp_high: true,
            lfo_enabled: true,
            hfo_enabled: true,
            vdda_enabled: true,
            hibernate_state_enabled: false,
            sleep_state_enabled: false,
        },
        leave_ctrl: CtrlResConf {
            field_detector_enabled: false,
            iref_enabled: false,
            dac_comp_high: false,
            lfo_enabled: false,
            hfo_enabled: true,
            vdda_enabled: true,
            hibernate_state_enabled: false,
            sleep_state_enabled: false,
        },
        wu_period: 0,
        osc_start: 0x60,
        dac_start: 0x60,
        dac_data: DacData { low: 0, high },
        swing_count: 0x3F,
        max_sleep: 1,
    }
}

} // verus!
