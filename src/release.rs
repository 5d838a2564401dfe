use vstd::prelude::*;
use crate::marshal::{LogEntry, OsTraceLog, marshaled};

verus! {

/// One release step of a marshaled log record.
#[derive(PartialEq, Eq, Structural, Clone, Copy, Debug)]
pub enum ReleaseStep {
    ImageName,
    Filename,
    Message,
    Subsystem,
    Category,
    Label,
    Record,
}

/// Which texts of a handed-out label are non-null.
#[derive(PartialEq, Eq, Structural, Clone, Copy, Debug)]
pub struct LabelShape {
    pub subsystem: bool,
    pub category: bool,
}

/// Which parts of a handed-out log record are non-null; `label` is `None`
/// for a null label pointer.
#[derive(PartialEq, Eq, Structural, Clone, Copy, Debug)]
pub struct LogShape {
    pub image_name: bool,
    pub filename: bool,
    pub message: bool,
    pub label: Option<LabelShape>,
}

pub open spec fn step_if(present: bool, step: ReleaseStep) -> Seq<ReleaseStep> {
    if present {
        seq![step]
    } else {
        Seq::empty()
    }
}

/// The steps that free a record, in order: each non-null top-level text;
/// then, for a non-null label, each of its non-null texts and the label
/// itself; and last the record. A null record (`None`) needs none.
pub open spec fn release_steps(shape: Option<LogShape>) -> Seq<ReleaseStep> {
    match shape {
        None => Seq::empty(),
        Some(s) => step_if(s.image_name, ReleaseStep::ImageName)
            + step_if(s.filename, ReleaseStep::Filename)
            + step_if(s.message, ReleaseStep::Message)
            + match s.label {
                None => Seq::empty(),
                Some(l) => step_if(l.subsystem, ReleaseStep::Subsystem)
                    + step_if(l.category, ReleaseStep::Category)
                    + seq![ReleaseStep::Label],
            }
            + seq![ReleaseStep::Record],
    }
}

fn push_if(plan: &mut Vec<ReleaseStep>, present: bool, step: ReleaseStep)
    ensures
        final(plan)@ == old(plan)@ + step_if(present, step),
{
    if present {
        plan.push(step);
    } else {
        assert(old(plan)@ + step_if(present, step) == old(plan)@);
    }
}

/// The release steps for a record of the given shape; none for a null record.
pub fn release_plan(shape: Option<LogShape>) -> (r: Vec<ReleaseStep>)
    ensures
        r@ == release_steps(shape),
        shape is None ==> r@.len() == 0,
{
    let mut plan: Vec<ReleaseStep> = Vec::new();
    match shape {
        None => {
            assert(plan@ == release_steps(shape));
        },
        Some(s) => {
            push_if(&mut plan, s.image_name, ReleaseStep::ImageName);
            push_if(&mut plan, s.filename, ReleaseStep::Filename);
            push_if(&mut plan, s.message, ReleaseStep::Message);
            let ghost top = plan@;
            match s.label {
                None => {
                    assert(top + Seq::<ReleaseStep>::empty() == top);
                },
                Some(l) => {
                    push_if(&mut plan, l.subsystem, ReleaseStep::Subsystem);
                    push_if(&mut plan, l.category, ReleaseStep::Category);
                    plan.push(ReleaseStep::Label);
                },
            }
            plan.push(ReleaseStep::Record);
            assert(plan@ =~= release_steps(shape));
        },
    }
    plan
}

/// The shape of a record as it is handed out: every text is non-null, and
/// the label pointer is non-null exactly when the record has a label.
pub open spec fn shape_spec(m: OsTraceLog) -> LogShape {
    LogShape {
        image_name: true,
        filename: true,
        message: true,
        label: match m.label {
            None => None,
            Some(_) => Some(LabelShape { subsystem: true, category: true }),
        },
    }
}

pub fn shape_of(m: &OsTraceLog) -> (r: LogShape)
    ensures
        r == shape_spec(*m),
{
    LogShape {
        image_name: true,
        filename: true,
        message: true,
        label: match &m.label {
            None => None,
            Some(_) => Some(LabelShape { subsystem: true, category: true }),
        },
    }
}

/// The storage that marshaling allocates for a record: the record and its
/// three texts, and for a record with a label, the label and its two texts.
pub open spec fn allocated(m: OsTraceLog, step: ReleaseStep) -> bool {
    match step {
        ReleaseStep::Subsystem | ReleaseStep::Category | ReleaseStep::Label => m.label is Some,
        _ => true,
    }
}

/// Freeing a marshaled record releases each allocation that marshaling made
/// exactly once and nothing else; the texts of a label are released before the
/// label, and the record last.
pub proof fn lemma_release_exactly_once(e: LogEntry, m: OsTraceLog)
    requires
        marshaled(e, m),
    ensures
        release_steps(Some(shape_spec(m))).no_duplicates(),
        forall|s: ReleaseStep| #[trigger] release_steps(Some(shape_spec(m))).contains(s)
            <==> allocated(m, s),
        release_steps(Some(shape_spec(m))).last() == ReleaseStep::Record,
{
    let steps = release_steps(Some(shape_spec(m)));
    if m.label is Some {
        assert(steps =~= seq![
            ReleaseStep::ImageName,
            ReleaseStep::Filename,
            ReleaseStep::Message,
            ReleaseStep::Subsystem,
            ReleaseStep::Category,
            ReleaseStep::Label,
            ReleaseStep::Record,
        ]);
        assert forall|s: ReleaseStep| steps.contains(s) <==> allocated(m, s) by {
            match s {
                ReleaseStep::ImageName => assert(steps[0] == s),
                ReleaseStep::Filename => assert(steps[1] == s),
                ReleaseStep::Message => assert(steps[2] == s),
                ReleaseStep::Subsystem => assert(steps[3] == s),
                ReleaseStep::Category => assert(steps[4] == s),
                ReleaseStep::Label => assert(steps[5] == s),
                ReleaseStep::Record => assert(steps[6] == s),
            }
        }
    } else {
        assert(steps =~= seq![
            ReleaseStep::ImageName,
            ReleaseStep::Filename,
            ReleaseStep::Message,
            ReleaseStep::Record,
        ]);
        assert forall|s: ReleaseStep| steps.contains(s) <==> allocated(m, s) by {
            match s {
                ReleaseStep::ImageName => assert(steps[0] == s),
                ReleaseStep::Filename => assert(steps[1] == s),
                ReleaseStep::Message => assert(steps[2] == s),
                ReleaseStep::Record => assert(steps[3] == s),
                _ => {},
            }
        }
    }
}

/// Freeing a record marshaled from an entry without a label touches no label
/// storage.
pub proof fn lemma_absent_label_untouched(e: LogEntry, m: OsTraceLog)
    requires
        marshaled(e, m),
        e.label is None,
    ensures
        !release_steps(Some(shape_spec(m))).contains(ReleaseStep::Label),
        !release_steps(Some(shape_spec(m))).contains(ReleaseStep::Subsystem),
        !release_steps(Some(shape_spec(m))).contains(ReleaseStep::Category),
{
    lemma_release_exactly_once(e, m);
}

} // verus!
