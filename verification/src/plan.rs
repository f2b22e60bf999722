//! A plan, and the script that comes of it.

use vstd::prelude::*;
use vstd::string::StringExecFns;
use crate::shell::{
    assembled, fragment_views, written_by, Fragment, FragmentView, Shell, ShellType,
};

verus! {

/// The requests of one invocation, in the order the script holds them, and
/// the dialect they go to.
#[derive(Debug, PartialEq, Eq)]
pub struct ActivationPlan {
    pub shell: ShellType,
    pub fragments: Vec<Fragment>,
}

/// What an `ActivationPlan` stands for.
pub ghost struct PlanView {
    pub shell: ShellType,
    pub fragments: Seq<FragmentView>,
}

impl View for ActivationPlan {
    type V = PlanView;

    open spec fn view(&self) -> PlanView {
        PlanView { shell: self.shell, fragments: fragment_views(self.fragments@) }
    }
}

/// The characters of each of `texts`, in order.
pub open spec fn text_views(texts: Seq<String>) -> Seq<Seq<char>> {
    Seq::new(texts.len(), |i: int| texts[i]@)
}

impl ActivationPlan {
    /// The script of the plan in the dialect of `shell`: what `shell` writes
    /// for each request, in order, each assignment on a line of its own. The
    /// texts are those that the operations of `shell` handed back, one call
    /// for each request.
    pub fn emit<S: Shell + ?Sized>(&self, shell: &S) -> (script: String)
        ensures
            exists|texts: Seq<String>|
                (texts.len() == self.fragments.len() && (forall|i: int|
                    0 <= i < texts.len() ==> written_by(
                        shell,
                        self.fragments[i],
                        #[trigger] texts[i],
                    )) && script@ == assembled(self@.fragments, text_views(texts))),
    {
        let mut script = String::new();
        let ghost mut texts: Seq<String> = Seq::empty();
        let mut i: usize = 0;
        while i < self.fragments.len()
            invariant
                i <= self.fragments.len(),
                texts.len() == i,
                forall|k: int|
                    0 <= k < i ==> written_by(shell, self.fragments[k], #[trigger] texts[k]),
                script@ == assembled(self@.fragments.take(i as int), text_views(texts)),
            decreases self.fragments.len() - i,
        {
            let text = self.fragments[i].write(shell);
            proof {
                let next = self@.fragments.take(i as int + 1);
                assert(next.drop_last() =~= self@.fragments.take(i as int));
                assert(text_views(texts.push(text)).drop_last() =~= text_views(texts));
                texts = texts.push(text);
            }
            let text = self.fragments[i].place(text);
            script.append(text.as_str());
            i += 1;
        }
        assert(self@.fragments.take(i as int) =~= self@.fragments);
        script
    }
}

} // verus!
