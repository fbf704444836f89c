//! The interaction layer's decisions: what outcome to report, the exact
//! text of the report, when a key event ends the session, and the layout
//! arithmetic for the centered message box.
//!
//! Rendering itself (raw mode, the alternate screen, drawing the regions)
//! is the surrounding program's business; everything it needs to decide is
//! computed here.

use vstd::prelude::*;
use crate::deploy::DeployError;
use crate::text::push_char;

verus! {

/// The outcome of one run, as shown to the user.
pub enum DeployOutcome {
    /// The payload was deployed into the target directory.
    Installed(String),
    /// Extraction into the target failed, with the diagnostic.
    ExtractionFailed(String, String),
    /// Removing the prior install under the target failed, with the
    /// diagnostic.
    RemovalFailed(String, String),
    /// No candidate path exists; all candidates tried, in order.
    NoTargetFound(Vec<String>),
}

/// A key event as the terminal reports it: a fresh press, a held key's
/// repeat, a release echo, or anything else.
pub enum InputEvent {
    Press(char),
    Repeat(char),
    Release(char),
    Other,
}

/// What the interaction loop does with one event.
pub enum LoopAction {
    /// Leave the loop and end the session.
    Quit,
    /// Ignore the event and draw the same screen again.
    Redraw,
}

/// Decides one event: only a fresh press of `q` quits; repeats, release
/// echoes and every other event redraw.
pub fn handle_event(e: &InputEvent) -> (r: LoopAction)
    ensures
        r is Quit <==> (e matches InputEvent::Press(c) && c == 'q'),
{
    match e {
        InputEvent::Press(c) => {
            if *c == 'q' {
                LoopAction::Quit
            } else {
                LoopAction::Redraw
            }
        },
        _ => LoopAction::Redraw,
    }
}

/// The outcome to report for a deployment attempt at `target`: success
/// and each failure keep their target and diagnostic; a traversal is shown
/// as an extraction failure naming the offending entry, since nothing was
/// extracted.
pub fn deploy_outcome(target: String, result: Result<(), DeployError>) -> (o: DeployOutcome)
    ensures
        result is Ok ==> (o matches DeployOutcome::Installed(t) && t@ == target@),
        result matches Err(DeployError::RemovalFailed(c)) ==> (o matches
            DeployOutcome::RemovalFailed(t, c2) && t@ == target@ && c2@ == c@),
        result matches Err(DeployError::ExtractionFailed(c)) ==> (o matches
            DeployOutcome::ExtractionFailed(t, c2) && t@ == target@ && c2@ == c@),
        result matches Err(DeployError::PathTraversal(n)) ==> (o matches
            DeployOutcome::ExtractionFailed(t, c2) && t@ == target@ && c2@
            == "archive entry escapes the target: "@ + n@),
{
    match result {
        Ok(_) => DeployOutcome::Installed(target),
        Err(DeployError::RemovalFailed(c)) => DeployOutcome::RemovalFailed(target, c),
        Err(DeployError::ExtractionFailed(c)) => DeployOutcome::ExtractionFailed(target, c),
        Err(DeployError::PathTraversal(n)) => {
            let mut msg = "archive entry escapes the target: ".to_owned();
            msg.append(n.as_str());
            DeployOutcome::ExtractionFailed(target, msg)
        },
    }
}

/// The lines of the report for an outcome: one line for a deployment
/// result, and for a missed target the heading followed by one line per
/// candidate tried — present even when no candidate existed at all.
pub fn report_lines(o: &DeployOutcome) -> (r: Vec<String>)
    ensures
        o matches DeployOutcome::Installed(t) ==> r@.len() == 1 && r@[0]@ == "Installed mods to "@
            + t@,
        o matches DeployOutcome::ExtractionFailed(t, c) ==> r@.len() == 1 && r@[0]@
            == "Failed to expand mods to "@ + t@ + ": "@ + c@,
        o matches DeployOutcome::RemovalFailed(t, c) ==> r@.len() == 1 && r@[0]@
            == "Failed to remove previous mods from "@ + t@ + ": "@ + c@,
        o matches DeployOutcome::NoTargetFound(paths) ==> r@.len() == 1 + paths@.len() && r@[0]@
            == "Unable to find Lethal Company installation. Paths attempted:"@ && forall|i: int|
            0 <= i < paths@.len() ==> #[trigger] r@[1 + i]@ == "-  "@ + paths@[i]@,
{
    let mut r: Vec<String> = Vec::new();
    match o {
        DeployOutcome::Installed(t) => {
            let mut line = "Installed mods to ".to_owned();
            line.append(t.as_str());
            r.push(line);
        },
        DeployOutcome::ExtractionFailed(t, c) => {
            let mut line = "Failed to expand mods to ".to_owned();
            line.append(t.as_str());
            line.append(": ");
            line.append(c.as_str());
            proof {
                assert(line@ =~= "Failed to expand mods to "@ + t@ + ": "@ + c@);
            }
            r.push(line);
        },
        DeployOutcome::RemovalFailed(t, c) => {
            let mut line = "Failed to remove previous mods from ".to_owned();
            line.append(t.as_str());
            line.append(": ");
            line.append(c.as_str());
            proof {
                assert(line@ =~= "Failed to remove previous mods from "@ + t@ + ": "@ + c@);
            }
            r.push(line);
        },
        DeployOutcome::NoTargetFound(paths) => {
            r.push("Unable to find Lethal Company installation. Paths attempted:".to_owned());
            let mut i: usize = 0;
            while i < paths.len()
                invariant
                    i <= paths@.len(),
                    r@.len() == 1 + i,
                    r@[0]@ == "Unable to find Lethal Company installation. Paths attempted:"@,
                    forall|j: int| 0 <= j < i ==> #[trigger] r@[1 + j]@ == "-  "@ + paths@[j]@,
                decreases paths@.len() - i,
            {
                let mut line = "-  ".to_owned();
                line.append(paths[i].as_str());
                r.push(line);
                i = i + 1;
            }
        },
    }
    r
}

/// A rectangular region of the terminal, in cells.
#[derive(Clone, Copy, PartialEq, Eq, Structural, Debug)]
pub struct Rect {
    pub x: u16,
    pub y: u16,
    pub width: u16,
    pub height: u16,
}

/// The box of `percent_x` by `percent_y` percent of `r`, centered in `r`:
/// the scaled size rounds down, and the leftover margin is split evenly.
/// The result always lies inside `r`.
pub fn centered_rect(percent_x: u16, percent_y: u16, r: Rect) -> (c: Rect)
    requires
        percent_x <= 100,
        percent_y <= 100,
        r.x + r.width <= u16::MAX,
        r.y + r.height <= u16::MAX,
    ensures
        c.width == r.width as int * percent_x as int / 100,
        c.height == r.height as int * percent_y as int / 100,
        c.x == r.x as int + (r.width as int - c.width as int) / 2,
        c.y == r.y as int + (r.height as int - c.height as int) / 2,
        r.x <= c.x && c.x as int + c.width as int <= r.x as int + r.width as int,
        r.y <= c.y && c.y as int + c.height as int <= r.y as int + r.height as int,
{
    proof {
        assert(r.width as int * percent_x as int <= r.width as int * 100) by (nonlinear_arith)
            requires percent_x <= 100, r.width >= 0;
        vstd::arithmetic::div_mod::lemma_div_is_ordered(
            r.width as int * percent_x as int,
            r.width as int * 100,
            100,
        );
        assert(r.width as int * 100 / 100 == r.width as int);
        assert(r.height as int * percent_y as int <= r.height as int * 100) by (nonlinear_arith)
            requires percent_y <= 100, r.height >= 0;
        vstd::arithmetic::div_mod::lemma_div_is_ordered(
            r.height as int * percent_y as int,
            r.height as int * 100,
            100,
        );
        assert(r.height as int * 100 / 100 == r.height as int);
    }
    let w: u16 = ((r.width as u32 * percent_x as u32) / 100) as u16;
    let h: u16 = ((r.height as u32 * percent_y as u32) / 100) as u16;
    let mx: u16 = (r.width - w) / 2;
    let my: u16 = (r.height - h) / 2;
    Rect { x: r.x + mx, y: r.y + my, width: w, height: h }
}

} // verus!
