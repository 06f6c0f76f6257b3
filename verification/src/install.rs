//! The steps that install a downloaded archive into a folder of its own,
//! with the files directly inside it however the archive nested them.

use crate::text::{str_eq, views};
use vstd::prelude::*;
use vstd::string::StringExecFns;

verus! {

/// One entry of a directory: its name and whether it is a directory.
#[derive(Debug)]
pub struct DirEntry {
    pub name: String,
    pub is_dir: bool,
}

/// One step of an installation, for the caller to carry out. Every path is
/// taken inside the folder that the mod is installed into.
#[derive(Debug)]
pub enum InstallStep {
    /// Remove the folder with everything in it.
    RemoveTarget,
    /// Create the folder, empty.
    CreateTarget,
    /// Extract the archive into the folder.
    ExtractArchive,
    /// Move the entry `name` of the directory `wrapper` up into the folder.
    Hoist { wrapper: String, name: String },
    /// Remove the directory `wrapper`, which is empty by now.
    RemoveWrapper { wrapper: String },
}

/// A step as a value.
pub enum StepView {
    RemoveTarget,
    CreateTarget,
    ExtractArchive,
    Hoist { wrapper: Seq<char>, name: Seq<char> },
    RemoveWrapper { wrapper: Seq<char> },
}

impl View for InstallStep {
    type V = StepView;

    open spec fn view(&self) -> StepView {
        match self {
            InstallStep::RemoveTarget => StepView::RemoveTarget,
            InstallStep::CreateTarget => StepView::CreateTarget,
            InstallStep::ExtractArchive => StepView::ExtractArchive,
            InstallStep::Hoist { wrapper, name } => StepView::Hoist {
                wrapper: wrapper@,
                name: name@,
            },
            InstallStep::RemoveWrapper { wrapper } => StepView::RemoveWrapper { wrapper: wrapper@ },
        }
    }
}

/// Why an archive cannot be flattened.
#[derive(Clone, Copy, Debug, PartialEq, Eq, Structural)]
pub enum InstallError {
    /// The wrapper directory holds an entry of its own name, which cannot be
    /// moved up beside it.
    NameClash,
}

/// The steps of a list, as values.
pub open spec fn step_views(steps: Seq<InstallStep>) -> Seq<StepView> {
    Seq::new(steps.len(), |i: int| steps[i]@)
}

/// The steps up to the extraction: a folder that exists is removed first,
/// so that nothing of an earlier installation remains.
pub open spec fn preparation(target_exists: bool) -> Seq<StepView> {
    if target_exists {
        seq![StepView::RemoveTarget, StepView::CreateTarget, StepView::ExtractArchive]
    } else {
        seq![StepView::CreateTarget, StepView::ExtractArchive]
    }
}

/// The steps up to the extraction.
pub fn prepare_steps(target_exists: bool) -> (steps: Vec<InstallStep>)
    ensures
        step_views(steps@) == preparation(target_exists),
{
    let mut steps: Vec<InstallStep> = Vec::new();
    if target_exists {
        steps.push(InstallStep::RemoveTarget);
    }
    steps.push(InstallStep::CreateTarget);
    steps.push(InstallStep::ExtractArchive);
    assert(step_views(steps@) =~= preparation(target_exists));
    steps
}

/// The extracted archive is wrapped: it holds one entry, a directory.
pub open spec fn is_wrapped(extracted: Seq<DirEntry>) -> bool {
    extracted.len() == 1 && extracted[0].is_dir
}

/// The name of the directory that wraps the extracted archive, if it is
/// wrapped.
pub fn wrapper_of(extracted: &Vec<DirEntry>) -> (wrapper: Option<String>)
    ensures
        match wrapper {
            Some(name) => is_wrapped(extracted@) && name@ == extracted@[0].name@,
            None => !is_wrapped(extracted@),
        },
{
    if extracted.len() == 1 && extracted[0].is_dir {
        Some(extracted[0].name.clone())
    } else {
        None
    }
}

/// The steps that lift the entries `inside` out of `wrapper`: each is
/// hoisted, in order, and then the wrapper is removed.
pub open spec fn hoisting(wrapper: Seq<char>, inside: Seq<Seq<char>>) -> Seq<StepView> {
    hoists(wrapper, inside, inside.len() as int).push(StepView::RemoveWrapper { wrapper })
}

/// The steps that hoist the first `n` of the entries `inside` out of
/// `wrapper`.
pub open spec fn hoists(wrapper: Seq<char>, inside: Seq<Seq<char>>, n: int) -> Seq<StepView> {
    Seq::new(n as nat, |i: int| StepView::Hoist { wrapper, name: inside[i] })
}

/// The steps that lift the entries `inside` out of the directory `wrapper`.
/// They cannot be given if one of the entries has the wrapper's own name.
pub fn hoist_steps(wrapper: &str, inside: &Vec<String>) -> (steps: Result<
    Vec<InstallStep>,
    InstallError,
>)
    ensures
        match steps {
            Ok(list) => !views(inside@).contains(wrapper@) && step_views(list@) == hoisting(
                wrapper@,
                views(inside@),
            ),
            Err(e) => e == InstallError::NameClash && views(inside@).contains(wrapper@),
        },
{
    let mut steps: Vec<InstallStep> = Vec::new();
    let mut i: usize = 0;
    while i < inside.len()
        invariant
            i <= inside@.len(),
            steps@.len() == i,
            forall|k: int| 0 <= k < i ==> views(inside@)[k] != wrapper@,
            forall|k: int|
                0 <= k < i ==> (#[trigger] steps@[k])@ == (StepView::Hoist {
                    wrapper: wrapper@,
                    name: inside@[k]@,
                }),
        decreases inside@.len() - i,
    {
        if str_eq(inside[i].as_str(), wrapper) {
            assert(views(inside@)[i as int] == wrapper@);
            return Err(InstallError::NameClash);
        }
        steps.push(
            InstallStep::Hoist { wrapper: wrapper.to_owned(), name: inside[i].clone() },
        );
        i += 1;
    }
    steps.push(InstallStep::RemoveWrapper { wrapper: wrapper.to_owned() });
    assert(step_views(steps@) =~= hoisting(wrapper@, views(inside@)));
    Ok(steps)
}

/// The names of a list of entries.
pub open spec fn names_of(entries: Seq<DirEntry>) -> Seq<Seq<char>> {
    Seq::new(entries.len(), |i: int| entries[i].name@)
}

/// What lies directly in the folder once the installation is done: the
/// entries of the wrapper if the archive was wrapped, else the entries of
/// the archive.
pub open spec fn layout_of(extracted: Seq<DirEntry>, inside: Seq<Seq<char>>) -> Seq<Seq<char>> {
    if is_wrapped(extracted) {
        inside
    } else {
        names_of(extracted)
    }
}

/// The names that lie directly in the folder once the installation is done,
/// `inside` being the entries of the wrapper where the archive is wrapped.
pub fn final_layout(extracted: &Vec<DirEntry>, inside: &Vec<String>) -> (names: Vec<String>)
    ensures
        views(names@) == layout_of(extracted@, views(inside@)),
{
    let mut names: Vec<String> = Vec::new();
    if extracted.len() == 1 && extracted[0].is_dir {
        let mut i: usize = 0;
        while i < inside.len()
            invariant
                i <= inside@.len(),
                names@.len() == i,
                forall|k: int| 0 <= k < i ==> (#[trigger] names@[k])@ == inside@[k]@,
            decreases inside@.len() - i,
        {
            names.push(inside[i].clone());
            i += 1;
        }
        assert(views(names@) =~= views(inside@));
    } else {
        let mut i: usize = 0;
        while i < extracted.len()
            invariant
                i <= extracted@.len(),
                names@.len() == i,
                forall|k: int| 0 <= k < i ==> (#[trigger] names@[k])@ == extracted@[k].name@,
            decreases extracted@.len() - i,
        {
            names.push(extracted[i].name.clone());
            i += 1;
        }
        assert(views(names@) =~= names_of(extracted@));
    }
    names
}

/// Holds of every name but `name`.
pub open spec fn other_than(name: Seq<char>) -> spec_fn(Seq<char>) -> bool {
    |n: Seq<char>| n != name
}

/// What one step makes of the folder, `None` standing for a folder that
/// does not exist and `Some` for the names directly inside one that does;
/// `archive` are the names at the top of the archive.
pub open spec fn after_step(
    folder: Option<Seq<Seq<char>>>,
    step: StepView,
    archive: Seq<Seq<char>>,
) -> Option<Seq<Seq<char>>> {
    match step {
        StepView::RemoveTarget => None,
        StepView::CreateTarget => match folder {
            Some(names) => Some(names),
            None => Some(Seq::empty()),
        },
        StepView::ExtractArchive => match folder {
            Some(names) => Some(names + archive),
            None => None,
        },
        StepView::Hoist { wrapper, name } => match folder {
            Some(names) => Some(names.push(name)),
            None => None,
        },
        StepView::RemoveWrapper { wrapper } => match folder {
            Some(names) => Some(names.filter(other_than(wrapper))),
            None => None,
        },
    }
}

/// What a run of steps makes of the folder.
#[verifier::opaque]
pub open spec fn after_steps(
    folder: Option<Seq<Seq<char>>>,
    steps: Seq<StepView>,
    archive: Seq<Seq<char>>,
) -> Option<Seq<Seq<char>>>
    decreases steps.len(),
{
    if steps.len() == 0 {
        folder
    } else {
        after_step(after_steps(folder, steps.drop_last(), archive), steps.last(), archive)
    }
}

/// The whole plan of an installation: the preparation, and the hoisting if
/// the extracted archive is wrapped.
pub open spec fn plan(target_exists: bool, extracted: Seq<DirEntry>, inside: Seq<Seq<char>>) -> Seq<
    StepView,
> {
    if is_wrapped(extracted) {
        preparation(target_exists) + hoisting(extracted[0].name@, inside)
    } else {
        preparation(target_exists)
    }
}

/// No steps leave the folder as it is.
pub proof fn lemma_no_steps(folder: Option<Seq<Seq<char>>>, archive: Seq<Seq<char>>)
    ensures
        after_steps(folder, Seq::empty(), archive) == folder,
{
    reveal(after_steps);
}

/// A run with one more step is the run, and then the step.
pub proof fn lemma_one_more_step(
    folder: Option<Seq<Seq<char>>>,
    steps: Seq<StepView>,
    step: StepView,
    archive: Seq<Seq<char>>,
)
    ensures
        after_steps(folder, steps.push(step), archive) == after_step(
            after_steps(folder, steps, archive),
            step,
            archive,
        ),
{
    reveal(after_steps);
    assert(steps.push(step).drop_last() =~= steps);
    assert(steps.push(step).last() == step);
}

/// Hoisting the first `n` entries puts their names into the folder, behind
/// what it held.
proof fn lemma_hoisted(
    names: Seq<Seq<char>>,
    wrapper: Seq<char>,
    inside: Seq<Seq<char>>,
    n: int,
    archive: Seq<Seq<char>>,
)
    requires
        0 <= n <= inside.len(),
    ensures
        after_steps(Some(names), hoists(wrapper, inside, n), archive) == Some(
            names + inside.take(n),
        ),
    decreases n,
{
    if n == 0 {
        assert(hoists(wrapper, inside, 0) =~= Seq::<StepView>::empty());
        lemma_no_steps(Some(names), archive);
        assert(names + inside.take(0) =~= names);
    } else {
        lemma_hoisted(names, wrapper, inside, n - 1, archive);
        let step = StepView::Hoist { wrapper, name: inside[n - 1] };
        assert(hoists(wrapper, inside, n) =~= hoists(wrapper, inside, n - 1).push(step));
        lemma_one_more_step(Some(names), hoists(wrapper, inside, n - 1), step, archive);
        assert((names + inside.take(n - 1)).push(inside[n - 1]) =~= names + inside.take(n));
    }
}

/// Running steps one run after another is running them in one.
proof fn lemma_steps_in_turn(
    folder: Option<Seq<Seq<char>>>,
    first: Seq<StepView>,
    then: Seq<StepView>,
    archive: Seq<Seq<char>>,
)
    ensures
        after_steps(folder, first + then, archive) == after_steps(
            after_steps(folder, first, archive),
            then,
            archive,
        ),
    decreases then.len(),
{
    if then.len() == 0 {
        assert(first + then =~= first);
        assert(then =~= Seq::<StepView>::empty());
        lemma_no_steps(after_steps(folder, first, archive), archive);
    } else {
        let front = then.drop_last();
        lemma_steps_in_turn(folder, first, front, archive);
        assert(first + then =~= (first + front).push(then.last()));
        assert(then =~= front.push(then.last()));
        lemma_one_more_step(folder, first + front, then.last(), archive);
        lemma_one_more_step(after_steps(folder, first, archive), front, then.last(), archive);
    }
}

/// The preparation leaves the folder holding what the archive holds at its
/// top, whatever it held before.
proof fn lemma_prepared(before: Option<Seq<Seq<char>>>, archive: Seq<Seq<char>>)
    ensures
        after_steps(before, preparation(before is Some), archive) == Some(archive),
{
    let none = Seq::<StepView>::empty();
    lemma_no_steps(before, archive);
    let created = if before is Some {
        let removed = none.push(StepView::RemoveTarget);
        lemma_one_more_step(before, none, StepView::RemoveTarget, archive);
        lemma_one_more_step(before, removed, StepView::CreateTarget, archive);
        removed.push(StepView::CreateTarget)
    } else {
        lemma_one_more_step(before, none, StepView::CreateTarget, archive);
        none.push(StepView::CreateTarget)
    };
    assert(after_steps(before, created, archive) == Some(Seq::<Seq<char>>::empty()));
    lemma_one_more_step(before, created, StepView::ExtractArchive, archive);
    assert(preparation(before is Some) =~= created.push(StepView::ExtractArchive));
    assert(Seq::<Seq<char>>::empty() + archive =~= archive);
}

/// Taking `name` out of a list that does not hold it leaves the list.
proof fn lemma_none_out(rest: Seq<Seq<char>>, name: Seq<char>)
    requires
        forall|i: int| 0 <= i < rest.len() ==> rest[i] != name,
    ensures
        rest.filter(other_than(name)) == rest,
    decreases rest.len(),
{
    if rest.len() > 0 {
        let front = rest.drop_last();
        lemma_none_out(front, name);
        assert(rest.filter(other_than(name)) == front.filter(other_than(name)).push(
            rest.last(),
        )) by {
            assert(other_than(name)(rest.last()));
            reveal(Seq::filter);
        }
        assert(front.push(rest.last()) =~= rest);
    } else {
        assert(rest.filter(other_than(name)) == rest) by {
            reveal(Seq::filter);
        }
    }
}

/// Taking the wrapper's name out of the wrapper followed by entries of
/// other names leaves the entries.
proof fn lemma_wrapper_out(wrapper: Seq<char>, inside: Seq<Seq<char>>)
    requires
        !inside.contains(wrapper),
    ensures
        (seq![wrapper] + inside).filter(other_than(wrapper)) == inside,
{
    let keep = other_than(wrapper);
    let front = seq![wrapper];
    Seq::filter_distributes_over_add(front, inside, keep);
    assert(front.filter(keep) == Seq::<Seq<char>>::empty()) by {
        assert(front.drop_last() =~= Seq::<Seq<char>>::empty());
        assert(!keep(front.last()));
        assert(front.drop_last().filter(keep) == front.drop_last()) by {
            reveal(Seq::filter);
        }
        assert(front.filter(keep) == front.drop_last().filter(keep)) by {
            reveal(Seq::filter);
        }
    }
    assert forall|i: int| 0 <= i < inside.len() implies inside[i] != wrapper by {
        assert(inside.contains(inside[i]));
    }
    lemma_none_out(inside, wrapper);
    assert(Seq::<Seq<char>>::empty() + inside =~= inside);
}

/// Hoisting every entry out of the wrapper and removing the wrapper takes a
/// folder that holds the wrapper alone to one that holds the entries.
proof fn lemma_hoisting_run(wrapper: Seq<char>, inside: Seq<Seq<char>>, archive: Seq<Seq<char>>)
    requires
        !inside.contains(wrapper),
    ensures
        after_steps(Some(seq![wrapper]), hoisting(wrapper, inside), archive) == Some(inside),
{
    let lifted = hoists(wrapper, inside, inside.len() as int);
    let last = StepView::RemoveWrapper { wrapper };
    // every entry is hoisted: the folder holds the wrapper and the entries
    lemma_hoisted(seq![wrapper], wrapper, inside, inside.len() as int, archive);
    assert(inside.take(inside.len() as int) =~= inside);
    let full = seq![wrapper] + inside;
    assert(after_steps(Some(seq![wrapper]), lifted, archive) == Some(full));
    // then the wrapper is removed
    lemma_one_more_step(Some(seq![wrapper]), lifted, last, archive);
    assert(after_step(Some(full), last, archive) == Some(full.filter(other_than(wrapper))));
    lemma_wrapper_out(wrapper, inside);
}

/// Carried out in order, the plan of an installation leaves the folder with
/// exactly the layout that `layout_of` names, whatever the folder held
/// before and whether it existed: the files of a wrapped archive lie
/// directly in the folder and the wrapper is gone. So installing the same
/// archive again ends in the same layout.
pub proof fn lemma_install_flattens(
    before: Option<Seq<Seq<char>>>,
    extracted: Seq<DirEntry>,
    inside: Seq<Seq<char>>,
)
    requires
        is_wrapped(extracted) ==> !inside.contains(extracted[0].name@),
    ensures
        after_steps(before, plan(before is Some, extracted, inside), names_of(extracted))
            == Some(layout_of(extracted, inside)),
        is_wrapped(extracted) ==> !layout_of(extracted, inside).contains(extracted[0].name@),
{
    let archive = names_of(extracted);
    lemma_prepared(before, archive);
    if is_wrapped(extracted) {
        let wrapper = extracted[0].name@;
        lemma_steps_in_turn(
            before,
            preparation(before is Some),
            hoisting(wrapper, inside),
            archive,
        );
        assert(archive =~= seq![wrapper]);
        lemma_hoisting_run(wrapper, inside, archive);
    }
}

/// Where the mod loader is fetched from and which file of its archive is
/// placed beside the game.
#[derive(Debug)]
pub struct LoaderSource {
    pub url: String,
    pub file_name: String,
}

/// The release archive of the mod loader. The same build serves wherever
/// the game runs in its Windows form.
pub open spec fn loader_url() -> Seq<char> {
    "https://github.com/ethangreen-dev/lovely-injector/releases/latest/download/lovely-x86_64-pc-windows-msvc.zip"@
}

/// The source of the mod loader: its release archive and the library in it.
pub fn loader_source() -> (source: LoaderSource)
    ensures
        source.url@ == loader_url(),
        source.file_name@ == "version.dll"@,
{
    LoaderSource {
        url: String::from_str(
            "https://github.com/ethangreen-dev/lovely-injector/releases/latest/download/lovely-x86_64-pc-windows-msvc.zip",
        ),
        file_name: String::from_str("version.dll"),
    }
}

} // verus!
