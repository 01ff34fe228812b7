//! The labels of the loaded model. The engine has no count of them: it is
//! asked for the label of index 0, 1, 2 and so on, and the first index without
//! a label ends the list.

use crate::context::Context;
use crate::marshal::bytes_of;
use crate::output::{label_text, read_label};
use vstd::prelude::*;

verus! {

/// A walk over the labels of a model, one answer of the engine at a time.
#[derive(Debug)]
pub struct LabelScan {
    labels: Vec<String>,
    ended: bool,
}

/// The state of a [`LabelScan`].
pub struct LabelScanView {
    /// The labels collected so far, in the order of their indices.
    pub labels: Seq<Seq<char>>,
    /// No further index will be asked for.
    pub done: bool,
}

impl LabelScanView {
    /// The walk before its first step.
    pub open spec fn start() -> Self {
        LabelScanView { labels: Seq::empty(), done: false }
    }

    /// The index to ask the engine for next, while the walk goes on.
    pub open spec fn index(self) -> Option<int> {
        if self.done {
            None
        } else {
            Some(self.labels.len() as int)
        }
    }

    /// The walk after the engine's answer for the index asked. A label is
    /// collected and, unless its index was the last that exists, the walk goes
    /// on; anything else ends the walk.
    pub open spec fn step(self, reply: Option<Seq<u8>>) -> Self {
        if self.done {
            self
        } else {
            match label_text(reply) {
                Some(text) => LabelScanView {
                    labels: self.labels.push(text),
                    done: self.labels.len() == i32::MAX,
                },
                None => LabelScanView { done: true, ..self },
            }
        }
    }

    /// The walk after the engine's answers `replies`, taken in turn.
    pub open spec fn run(replies: Seq<Option<Seq<u8>>>) -> Self
        decreases replies.len(),
    {
        if replies.len() == 0 {
            Self::start()
        } else {
            Self::run(replies.drop_last()).step(replies.last())
        }
    }
}

impl View for LabelScan {
    type V = LabelScanView;

    closed spec fn view(&self) -> LabelScanView {
        LabelScanView {
            labels: self.labels.deep_view(),
            done: self.ended || self.labels@.len() > i32::MAX,
        }
    }
}

impl LabelScan {
    /// The index to ask the engine for next: `None` once the walk has ended.
    pub fn index(&self) -> (index: Option<i32>)
        ensures
            match index {
                Some(i) => self@.index() == Some(i as int),
                None => self@.index() is None,
            },
    {
        if self.ended || self.labels.len() > i32::MAX as usize {
            None
        } else {
            Some(self.labels.len() as i32)
        }
    }

    /// Takes the engine's answer for the index that [`LabelScan::index`] gave.
    /// Once the walk has ended, answers change nothing.
    pub fn accept(&mut self, label: Option<Vec<u8>>)
        ensures
            final(self)@ == old(self)@.step(bytes_of(label)),
    {
        if self.ended || self.labels.len() > i32::MAX as usize {
            return ;
        }
        match read_label(label) {
            Some(text) => {
                let ghost before = self.labels.deep_view();
                self.labels.push(text);
                assert(self.labels.deep_view() =~= before.push(text@));
            },
            None => {
                self.ended = true;
            },
        }
    }

    /// Ends the walk and gives the labels collected.
    pub fn finish(self) -> (labels: Vec<String>)
        ensures
            labels.deep_view() == self@.labels,
    {
        self.labels
    }
}

impl<H, R> Context<H, R> {
    /// Starts a walk over the labels of the loaded model.
    pub fn labels(&self) -> (scan: LabelScan)
        ensures
            scan@ == LabelScanView::start(),
    {
        let scan = LabelScan { labels: Vec::new(), ended: false };
        assert(scan.labels.deep_view() =~= Seq::<Seq<char>>::empty());
        scan
    }
}

} // verus!
