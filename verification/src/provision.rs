//! The steps that prepare the container before the primary command runs.
//!
//! Every step is one command, run in batch. The steps come in a fixed order:
//! the extra repository, the second repository, the system update, the
//! refresh of the file index, and then, for each named package, a search
//! that probes whether the package exists and the install itself; first the
//! packages of the standard repositories, then those of the AUR.

use vstd::prelude::*;
use crate::error::{Error, ErrorView};
use crate::text::{
    chars_of, clone_optional, count_words, escape, escaped, has_prefix, join, joined, optional_view,
    push_text, same_text, split_words, starts_with_at, text_of, views, words,
};

verus! {

/// What a step does.
#[derive(Clone, Copy, PartialEq, Eq, Structural, Debug)]
pub enum StepKind {
    ExtraRepository,
    SecondRepository,
    SystemUpdate,
    FileIndexRefresh,
    PackageProbe,
    PackageInstall,
    AurProbe,
    AurInstall,
}

/// One step: its command, and the package it is about where it is about
/// one (empty otherwise).
#[derive(PartialEq, Eq, Debug)]
pub struct Step {
    pub kind: StepKind,
    pub command: String,
    pub package: String,
}

/// Which steps are wanted.
#[derive(PartialEq, Eq, Debug)]
pub struct Provisioning {
    /// The command that adds the extra repository and its keys.
    pub extra_repository: Option<String>,
    /// The command that adds the second repository.
    pub second_repository: Option<String>,
    pub update_system: bool,
    /// The command that refreshes the file index.
    pub file_index: Option<String>,
    /// The names of the packages to install, separated by spaces.
    pub extra_packages: Option<String>,
    /// The names of the packages to install from the AUR, separated by
    /// spaces.
    pub extra_aur_packages: Option<String>,
    /// Whether the steps run detached, each awaited by asking the engine
    /// again and again, and not with their output gathered.
    pub detached: bool,
}

/// The view of [`Step`]: the same value, with each text as its characters.
pub ghost struct StepView {
    pub kind: StepKind,
    pub command: Seq<char>,
    pub package: Seq<char>,
}

/// The view of [`Provisioning`]: the same value, with each text as its characters.
pub ghost struct ProvisioningView {
    pub extra_repository: Option<Seq<char>>,
    pub second_repository: Option<Seq<char>>,
    pub update_system: bool,
    pub file_index: Option<Seq<char>>,
    pub extra_packages: Option<Seq<char>>,
    pub extra_aur_packages: Option<Seq<char>>,
    pub detached: bool,
}

impl View for Step {
    type V = StepView;

    open spec fn view(&self) -> StepView {
        StepView { kind: self.kind, command: self.command@, package: self.package@ }
    }
}

impl View for Provisioning {
    type V = ProvisioningView;

    open spec fn view(&self) -> ProvisioningView {
        ProvisioningView {
            extra_repository: optional_view(self.extra_repository),
            second_repository: optional_view(self.second_repository),
            update_system: self.update_system,
            file_index: optional_view(self.file_index),
            extra_packages: optional_view(self.extra_packages),
            extra_aur_packages: optional_view(self.extra_aur_packages),
            detached: self.detached,
        }
    }
}

/// The views of the steps, in order.
pub open spec fn step_views(steps: Seq<Step>) -> Seq<StepView> {
    Seq::new(steps.len(), |i: int| steps[i]@)
}

/// The command that searches the standard repositories for exactly this
/// package.
pub open spec fn search_text(package: Seq<char>) -> Seq<char> {
    "/bin/pacman -Ssq \"^"@ + package + "$\""@
}

/// The command that installs this package from the standard repositories.
pub open spec fn install_text(package: Seq<char>) -> Seq<char> {
    "/bin/sudo /bin/pacman -S --needed --noconfirm "@ + package
}

/// The command that searches the AUR for exactly this package.
pub open spec fn aur_search_text(package: Seq<char>) -> Seq<char> {
    "/bin/yay --aur -Ssq \"^"@ + package + "$\""@
}

/// The command that installs this package from the AUR.
pub open spec fn aur_install_text(package: Seq<char>) -> Seq<char> {
    "/bin/yay --sync --needed --noconfirm --noprogressbar "@ + package
}

/// The command that updates the whole system.
pub open spec fn update_text() -> Seq<char> {
    "/bin/sudo /bin/pacman -Syu --noconfirm"@
}

/// The shell that a session enters where no other command is given.
pub open spec fn default_shell() -> Seq<char> {
    "/usr/bin/zsh"@
}

/// The command that enters the default shell and has it greet the user.
pub open spec fn welcome_text() -> Seq<char> {
    "SHOW_WELCOME=true /usr/bin/zsh"@
}

/// Each argument escaped, in order.
pub open spec fn escaped_each(args: Seq<Seq<char>>) -> Seq<Seq<char>> {
    Seq::new(args.len(), |i: int| escaped(args[i]))
}

/// The primary command as one shell command: the greeting shell where the
/// arguments are the default shell alone, otherwise the arguments, each
/// escaped, with single spaces between them.
pub open spec fn primary_text(args: Seq<Seq<char>>) -> Seq<char> {
    if args.len() == 1 && args[0] == default_shell() {
        welcome_text()
    } else {
        joined(escaped_each(args), " "@)
    }
}

/// The probe of a package.
pub open spec fn probe_step(package: Seq<char>, aur: bool) -> StepView {
    if aur {
        StepView { kind: StepKind::AurProbe, command: aur_search_text(package), package }
    } else {
        StepView { kind: StepKind::PackageProbe, command: search_text(package), package }
    }
}

/// The install of a package.
pub open spec fn install_step(package: Seq<char>, aur: bool) -> StepView {
    if aur {
        StepView { kind: StepKind::AurInstall, command: aur_install_text(package), package }
    } else {
        StepView { kind: StepKind::PackageInstall, command: install_text(package), package }
    }
}

/// For each package in order, its probe and then its install.
pub open spec fn package_steps(packages: Seq<Seq<char>>, aur: bool) -> Seq<StepView>
    decreases packages.len(),
{
    if packages.len() == 0 {
        Seq::empty()
    } else {
        package_steps(packages.drop_last(), aur) + seq![
            probe_step(packages.last(), aur),
            install_step(packages.last(), aur),
        ]
    }
}

/// The step of this kind with this command, where the command is given.
pub open spec fn optional_step(kind: StepKind, command: Option<Seq<char>>) -> Seq<StepView> {
    match command {
        Some(command) => seq![StepView { kind, command, package: Seq::empty() }],
        None => Seq::empty(),
    }
}

/// The words of an optional text; none where there is no text.
pub open spec fn optional_words(list: Option<Seq<char>>) -> Seq<Seq<char>> {
    match list {
        Some(list) => words(list),
        None => Seq::empty(),
    }
}

/// All steps that are wanted, in the order in which they run.
pub open spec fn plan_of(p: ProvisioningView) -> Seq<StepView> {
    optional_step(StepKind::ExtraRepository, p.extra_repository) + optional_step(
        StepKind::SecondRepository,
        p.second_repository,
    ) + optional_step(
        StepKind::SystemUpdate,
        if p.update_system {
            Some(update_text())
        } else {
            None
        },
    ) + optional_step(StepKind::FileIndexRefresh, p.file_index) + package_steps(
        optional_words(p.extra_packages),
        false,
    ) + package_steps(optional_words(p.extra_aur_packages), true)
}

/// One where the flag is set.
pub open spec fn one_if(flag: bool) -> nat {
    if flag {
        1
    } else {
        0
    }
}

/// The number of steps of a session, as shown to the user: five for the
/// pull, the creation, the start, the primary command and the removal; one
/// for each single step that is wanted; one for each named package.
pub open spec fn step_count(p: ProvisioningView) -> nat {
    5 + one_if(p.extra_repository is Some) + one_if(p.second_repository is Some) + one_if(
        p.update_system,
    ) + one_if(p.file_index is Some) + optional_words(p.extra_packages).len() + optional_words(
        p.extra_aur_packages,
    ).len()
}

/// Whether a step counts as a step of its own where the steps are shown to
/// the user: the install of a package counts with the probe before it.
pub open spec fn opens_step(kind: StepKind) -> bool {
    kind != StepKind::PackageInstall && kind != StepKind::AurInstall
}

/// How many of the first `upto` steps of the plan count as steps of their
/// own.
pub open spec fn opened(plan: Seq<StepView>, upto: int) -> nat
    decreases upto,
{
    if upto <= 0 {
        0
    } else {
        opened(plan, upto - 1) + one_if(opens_step(plan[upto - 1].kind))
    }
}

/// What the user is shown while a step runs.
pub open spec fn label_of(step: StepView) -> Seq<char> {
    match step.kind {
        StepKind::ExtraRepository => "Adding repository"@,
        StepKind::SecondRepository => "Adding repository"@,
        StepKind::SystemUpdate => "Updating system"@,
        StepKind::FileIndexRefresh => "Updating file index"@,
        StepKind::PackageProbe => "Installing "@ + step.package,
        StepKind::PackageInstall => "Installing "@ + step.package,
        StepKind::AurProbe => "Installing "@ + step.package + " from AUR"@,
        StepKind::AurInstall => "Installing "@ + step.package + " from AUR"@,
    }
}

proof fn lemma_opened_adds(a: Seq<StepView>, b: Seq<StepView>, upto: int)
    requires
        0 <= upto <= b.len(),
    ensures
        opened(a + b, a.len() + upto) == opened(a, a.len() as int) + opened(b, upto),
    decreases upto,
{
    if upto == 0 {
        lemma_opened_prefix(a, b, a.len() as int);
    } else {
        lemma_opened_adds(a, b, upto - 1);
        assert((a + b)[a.len() + upto - 1] == b[upto - 1]);
    }
}

proof fn lemma_opened_prefix(a: Seq<StepView>, b: Seq<StepView>, upto: int)
    requires
        0 <= upto <= a.len(),
    ensures
        opened(a + b, upto) == opened(a, upto),
    decreases upto,
{
    if upto > 0 {
        lemma_opened_prefix(a, b, upto - 1);
        assert((a + b)[upto - 1] == a[upto - 1]);
    }
}

proof fn lemma_opened_packages(packages: Seq<Seq<char>>, aur: bool)
    ensures
        package_steps(packages, aur).len() == 2 * packages.len(),
        opened(package_steps(packages, aur), 2 * packages.len() as int) == packages.len(),
    decreases packages.len(),
{
    lemma_package_steps_len(packages, aur);
    if packages.len() > 0 {
        let head = package_steps(packages.drop_last(), aur);
        let pair = seq![probe_step(packages.last(), aur), install_step(packages.last(), aur)];
        lemma_opened_packages(packages.drop_last(), aur);
        lemma_opened_adds(head, pair, 2);
        assert(opened(pair, 2) == 1) by {
            assert(opened(pair, 1) == 1) by {
                assert(opened(pair, 0) == 0);
            }
        }
    }
}

/// The number of steps that is shown to the user is five more than the
/// number of steps of the plan that count as steps of their own.
pub proof fn lemma_plan_matches_step_count(p: ProvisioningView)
    ensures
        step_count(p) == 5 + opened(plan_of(p), plan_of(p).len() as int),
{
    let a = optional_step(StepKind::ExtraRepository, p.extra_repository);
    let b = optional_step(StepKind::SecondRepository, p.second_repository);
    let c = optional_step(
        StepKind::SystemUpdate,
        if p.update_system {
            Some(update_text())
        } else {
            None
        },
    );
    let d = optional_step(StepKind::FileIndexRefresh, p.file_index);
    let e = package_steps(optional_words(p.extra_packages), false);
    let f = package_steps(optional_words(p.extra_aur_packages), true);
    lemma_opened_packages(optional_words(p.extra_packages), false);
    lemma_opened_packages(optional_words(p.extra_aur_packages), true);
    lemma_opened_single(a);
    lemma_opened_single(b);
    lemma_opened_single(c);
    lemma_opened_single(d);
    lemma_opened_adds(a, b, b.len() as int);
    lemma_opened_adds(a + b, c, c.len() as int);
    lemma_opened_adds(a + b + c, d, d.len() as int);
    lemma_opened_adds(a + b + c + d, e, e.len() as int);
    lemma_opened_adds(a + b + c + d + e, f, f.len() as int);
}

proof fn lemma_opened_single(a: Seq<StepView>)
    requires
        a.len() <= 1,
        a.len() == 1 ==> opens_step(a[0].kind),
    ensures
        opened(a, a.len() as int) == a.len(),
{
    if a.len() == 1 {
        assert(opened(a, 0) == 0);
    }
}

/// The first prefix that marks an error line.
pub open spec fn error_prefix() -> Seq<char> {
    "error: "@
}

/// The second prefix that marks an error line.
pub open spec fn build_error_prefix() -> Seq<char> {
    "==> ERROR: "@
}

/// What an error line says: the line without the prefix that marks it, or
/// nothing where the line is no error line.
pub open spec fn line_detail(line: Seq<char>) -> Option<Seq<char>> {
    if has_prefix(line, error_prefix()) {
        Some(line.skip(error_prefix().len() as int))
    } else if has_prefix(line, build_error_prefix()) {
        Some(line.skip(build_error_prefix().len() as int))
    } else {
        None
    }
}

/// What the first error line of `s[i..]` says, where the line being read so
/// far is `cur`; empty where no line is an error line.
pub open spec fn detail_from(s: Seq<char>, i: int, cur: Seq<char>) -> Seq<char>
    decreases s.len() - i,
{
    if i < 0 || i >= s.len() {
        match line_detail(cur) {
            Some(d) => d,
            None => Seq::empty(),
        }
    } else if s[i] == '\n' {
        match line_detail(cur) {
            Some(d) => d,
            None => detail_from(s, i + 1, Seq::empty()),
        }
    } else {
        detail_from(s, i + 1, cur.push(s[i]))
    }
}

/// What the first error line of the output says; empty where the output has
/// none.
pub open spec fn error_detail(output: Seq<char>) -> Seq<char> {
    detail_from(output, 0, Seq::empty())
}

/// The failure of a step whose command ended with this code.
pub open spec fn failure_of(step: StepView, code: i64, detail: Seq<char>) -> ErrorView {
    match step.kind {
        StepKind::ExtraRepository => ErrorView::RepositorySetup { code, detail },
        StepKind::SecondRepository => ErrorView::RepositorySetup { code, detail },
        StepKind::SystemUpdate => ErrorView::SystemUpdate { code, detail },
        StepKind::FileIndexRefresh => ErrorView::FileIndexRefresh { code, detail },
        StepKind::PackageProbe => ErrorView::PackageDNE { package: step.package, code, detail },
        StepKind::AurProbe => ErrorView::PackageDNE { package: step.package, code, detail },
        StepKind::PackageInstall => ErrorView::PackageInstall { code, detail },
        StepKind::AurInstall => ErrorView::PackageInstall { code, detail },
    }
}

/// Whether the step probes for a package.
pub open spec fn is_probe(kind: StepKind) -> bool {
    kind == StepKind::PackageProbe || kind == StepKind::AurProbe
}

/// A probe that fails always says that its package does not exist, whatever
/// the code and the output; no other step ever says so.
pub proof fn lemma_probe_failure(step: StepView, code: i64, detail: Seq<char>)
    ensures
        is_probe(step.kind) ==> failure_of(step, code, detail) == (ErrorView::PackageDNE {
            package: step.package,
            code,
            detail,
        }),
        !is_probe(step.kind) ==> !(failure_of(step, code, detail) is PackageDNE),
{
}

/// In a plan every install comes directly after the probe of the same
/// package, and every probe is directly followed by that install.
pub proof fn lemma_probe_precedes_install(packages: Seq<Seq<char>>, aur: bool, i: int)
    requires
        0 <= i < package_steps(packages, aur).len(),
    ensures
        package_steps(packages, aur).len() == 2 * packages.len(),
        i % 2 == 0 ==> package_steps(packages, aur)[i] == probe_step(packages[i / 2], aur),
        i % 2 == 1 ==> package_steps(packages, aur)[i] == install_step(packages[i / 2], aur),
    decreases packages.len(),
{
    lemma_package_steps_len(packages, aur);
    if packages.len() > 0 {
        let head = package_steps(packages.drop_last(), aur);
        lemma_package_steps_len(packages.drop_last(), aur);
        if i < head.len() {
            lemma_probe_precedes_install(packages.drop_last(), aur, i);
            assert(package_steps(packages, aur)[i] == head[i]);
            assert(packages.drop_last()[i / 2] == packages[i / 2]);
        }
    }
}

/// A plan has two steps for each package.
pub proof fn lemma_package_steps_len(packages: Seq<Seq<char>>, aur: bool)
    ensures
        package_steps(packages, aur).len() == 2 * packages.len(),
    decreases packages.len(),
{
    if packages.len() > 0 {
        lemma_package_steps_len(packages.drop_last(), aur);
    }
}

fn around(head: &str, middle: &str, tail: &str) -> (s: String)
    ensures
        s@ == head@ + middle@ + tail@,
{
    let mut s = String::new();
    push_text(&mut s, head);
    push_text(&mut s, middle);
    push_text(&mut s, tail);
    assert(s@ =~= head@ + middle@ + tail@);
    s
}

fn after(head: &str, tail: &str) -> (s: String)
    ensures
        s@ == head@ + tail@,
{
    let mut s = String::new();
    push_text(&mut s, head);
    push_text(&mut s, tail);
    assert(s@ =~= head@ + tail@);
    s
}

/// The command that searches the standard repositories for exactly this
/// package.
pub fn search_command(package: &str) -> (s: String)
    ensures
        s@ == search_text(package@),
{
    around("/bin/pacman -Ssq \"^", package, "$\"")
}

/// The command that installs this package from the standard repositories.
pub fn install_command(package: &str) -> (s: String)
    ensures
        s@ == install_text(package@),
{
    after("/bin/sudo /bin/pacman -S --needed --noconfirm ", package)
}

/// The command that searches the AUR for exactly this package.
pub fn aur_search_command(package: &str) -> (s: String)
    ensures
        s@ == aur_search_text(package@),
{
    around("/bin/yay --aur -Ssq \"^", package, "$\"")
}

/// The command that installs this package from the AUR.
pub fn aur_install_command(package: &str) -> (s: String)
    ensures
        s@ == aur_install_text(package@),
{
    after("/bin/yay --sync --needed --noconfirm --noprogressbar ", package)
}

/// The command that updates the whole system.
pub fn update_command() -> (s: String)
    ensures
        s@ == update_text(),
{
    "/bin/sudo /bin/pacman -Syu --noconfirm".to_string()
}

/// The primary command as one shell command.
pub fn primary_command(args: &Vec<String>) -> (s: String)
    ensures
        s@ == primary_text(views(args@)),
{
    if args.len() == 1 && same_text(args[0].as_str(), "/usr/bin/zsh") {
        return "SHOW_WELCOME=true /usr/bin/zsh".to_string();
    }
    let mut parts: Vec<String> = Vec::new();
    let mut i: usize = 0;
    while i < args.len()
        invariant
            i <= args.len(),
            parts@.len() == i,
            forall|k: int| 0 <= k < i ==> (#[trigger] parts@[k])@ == escaped(args@[k]@),
        decreases args.len() - i,
    {
        parts.push(escape(args[i].as_str()));
        i += 1;
    }
    assert(views(parts@) =~= escaped_each(views(args@)));
    join(&parts, " ")
}

impl Step {
    /// What the user is shown while this step runs.
    pub fn label(&self) -> (s: String)
        ensures
            s@ == label_of(self@),
    {
        match self.kind {
            StepKind::ExtraRepository => "Adding repository".to_string(),
            StepKind::SecondRepository => "Adding repository".to_string(),
            StepKind::SystemUpdate => "Updating system".to_string(),
            StepKind::FileIndexRefresh => "Updating file index".to_string(),
            StepKind::PackageProbe => after("Installing ", self.package.as_str()),
            StepKind::PackageInstall => after("Installing ", self.package.as_str()),
            StepKind::AurProbe => around("Installing ", self.package.as_str(), " from AUR"),
            StepKind::AurInstall => around("Installing ", self.package.as_str(), " from AUR"),
        }
    }

    /// Whether this step counts as a step of its own where the steps are
    /// shown to the user.
    pub fn opens_step(&self) -> (r: bool)
        ensures
            r == opens_step(self@.kind),
    {
        match self.kind {
            StepKind::PackageInstall => false,
            StepKind::AurInstall => false,
            _ => true,
        }
    }
}

/// How many of the first `upto` steps of the plan count as steps of their
/// own.
pub fn count_opened(plan: &Vec<Step>, upto: usize) -> (n: usize)
    requires
        upto <= plan.len(),
    ensures
        n == opened(step_views(plan@), upto as int),
        n <= upto,
{
    let mut n: usize = 0;
    let mut i: usize = 0;
    while i < upto
        invariant
            i <= upto <= plan.len(),
            n <= i,
            n == opened(step_views(plan@), i as int),
        decreases upto - i,
    {
        if plan[i].opens_step() {
            n += 1;
        }
        i += 1;
    }
    n
}

impl Clone for Step {
    fn clone(&self) -> (copy: Step)
        ensures
            copy@ == self@,
    {
        Step { kind: self.kind, command: self.command.clone(), package: self.package.clone() }
    }
}

fn push_optional_step(plan: &mut Vec<Step>, kind: StepKind, command: &Option<String>)
    ensures
        step_views(final(plan)@) == step_views(old(plan)@) + optional_step(
            kind,
            optional_view(*command),
        ),
{
    match command {
        Some(command) => {
            plan.push(Step { kind, command: command.clone(), package: String::new() });
        },
        None => {},
    }
    assert(step_views(plan@) =~= step_views(old(plan)@) + optional_step(
        kind,
        optional_view(*command),
    ));
}

fn push_package_steps(plan: &mut Vec<Step>, list: &Option<String>, aur: bool)
    ensures
        step_views(final(plan)@) == step_views(old(plan)@) + package_steps(
            optional_words(optional_view(*list)),
            aur,
        ),
{
    let names: Vec<String> = match list {
        Some(list) => split_words(list.as_str()),
        None => Vec::new(),
    };
    let ghost packages = optional_words(optional_view(*list));
    assert(views(names@) =~= packages);
    let mut i: usize = 0;
    assert(packages.take(0) =~= Seq::<Seq<char>>::empty());
    assert(step_views(plan@) =~= step_views(old(plan)@) + package_steps(packages.take(0), aur));
    while i < names.len()
        invariant
            i <= names.len(),
            views(names@) == packages,
            step_views(plan@) == step_views(old(plan)@) + package_steps(
                packages.take(i as int),
                aur,
            ),
        decreases names.len() - i,
    {
        let ghost before = step_views(plan@);
        let name: &String = &names[i];
        assert(name@ == packages[i as int]);
        let probe = if aur {
            Step {
                kind: StepKind::AurProbe,
                command: aur_search_command(name.as_str()),
                package: name.clone(),
            }
        } else {
            Step {
                kind: StepKind::PackageProbe,
                command: search_command(name.as_str()),
                package: name.clone(),
            }
        };
        let install = if aur {
            Step {
                kind: StepKind::AurInstall,
                command: aur_install_command(name.as_str()),
                package: name.clone(),
            }
        } else {
            Step {
                kind: StepKind::PackageInstall,
                command: install_command(name.as_str()),
                package: name.clone(),
            }
        };
        plan.push(probe);
        plan.push(install);
        proof {
            let next = packages.take(i + 1);
            assert(next.drop_last() =~= packages.take(i as int));
            assert(next.last() == packages[i as int]);
            assert(step_views(plan@) =~= before + seq![
                probe_step(packages[i as int], aur),
                install_step(packages[i as int], aur),
            ]);
        }
        i += 1;
    }
    assert(packages.take(names@.len() as int) =~= packages);
}

impl Clone for Provisioning {
    fn clone(&self) -> (copy: Provisioning)
        ensures
            copy@ == self@,
    {
        Provisioning {
            extra_repository: clone_optional(&self.extra_repository),
            second_repository: clone_optional(&self.second_repository),
            update_system: self.update_system,
            file_index: clone_optional(&self.file_index),
            extra_packages: clone_optional(&self.extra_packages),
            extra_aur_packages: clone_optional(&self.extra_aur_packages),
            detached: self.detached,
        }
    }
}

impl Provisioning {
    /// All steps that are wanted, in the order in which they run.
    pub fn plan(&self) -> (plan: Vec<Step>)
        ensures
            step_views(plan@) == plan_of(self@),
    {
        let mut plan: Vec<Step> = Vec::new();
        assert(step_views(plan@) =~= Seq::<StepView>::empty());
        push_optional_step(&mut plan, StepKind::ExtraRepository, &self.extra_repository);
        push_optional_step(&mut plan, StepKind::SecondRepository, &self.second_repository);
        let update: Option<String> = if self.update_system {
            Some(update_command())
        } else {
            None
        };
        push_optional_step(&mut plan, StepKind::SystemUpdate, &update);
        push_optional_step(&mut plan, StepKind::FileIndexRefresh, &self.file_index);
        push_package_steps(&mut plan, &self.extra_packages, false);
        push_package_steps(&mut plan, &self.extra_aur_packages, true);
        assert(step_views(plan@) =~= plan_of(self@));
        plan
    }

    /// The number of steps of the session, as shown to the user. It is held
    /// at the largest `usize` where the true number is larger.
    pub fn total_steps(&self) -> (total: usize)
        ensures
            total == if step_count(self@) <= usize::MAX {
                step_count(self@)
            } else {
                usize::MAX as nat
            },
    {
        let mut total: usize = 5;
        if self.extra_repository.is_some() {
            total += 1;
        }
        if self.second_repository.is_some() {
            total += 1;
        }
        if self.update_system {
            total += 1;
        }
        if self.file_index.is_some() {
            total += 1;
        }
        let standard: usize = match &self.extra_packages {
            Some(list) => count_words(list.as_str()),
            None => 0,
        };
        let aur: usize = match &self.extra_aur_packages {
            Some(list) => count_words(list.as_str()),
            None => 0,
        };
        if standard > usize::MAX - total {
            return usize::MAX;
        }
        total += standard;
        if aur > usize::MAX - total {
            return usize::MAX;
        }
        total + aur
    }
}

fn detail_of_line(v: &Vec<char>, from: usize, to: usize) -> (r: Option<String>)
    requires
        from <= to <= v.len(),
    ensures
        r is Some == line_detail(v@.subrange(from as int, to as int)) is Some,
        r is Some ==> r->0@ == line_detail(v@.subrange(from as int, to as int))->0,
{
    let first = chars_of("error: ");
    let second = chars_of("==> ERROR: ");
    let ghost line = v@.subrange(from as int, to as int);
    if first.len() <= to - from && starts_with_at(v, from, &first) {
        assert(line.take(first@.len() as int) =~= v@.skip(from as int).take(first@.len() as int));
        let d = text_of(v, from + first.len(), to);
        assert(d@ =~= line.skip(first@.len() as int));
        return Some(d);
    }
    proof {
        if first.len() <= to - from {
            assert(line.take(first@.len() as int) =~= v@.skip(from as int).take(
                first@.len() as int,
            ));
        }
    }
    if second.len() <= to - from && starts_with_at(v, from, &second) {
        assert(line.take(second@.len() as int) =~= v@.skip(from as int).take(second@.len() as int));
        let d = text_of(v, from + second.len(), to);
        assert(d@ =~= line.skip(second@.len() as int));
        return Some(d);
    }
    proof {
        if second.len() <= to - from {
            assert(line.take(second@.len() as int) =~= v@.skip(from as int).take(
                second@.len() as int,
            ));
        }
    }
    None
}

/// What the first error line of the output says: the rest of the first line
/// that begins with one of the two prefixes that mark an error line. Empty
/// where the output has no such line.
pub fn extract_error_line(output: &str) -> (detail: String)
    ensures
        detail@ == error_detail(output@),
{
    let v = chars_of(output);
    let mut start: usize = 0;
    let mut i: usize = 0;
    assert(v@.subrange(0, 0) =~= Seq::<char>::empty());
    while i < v.len()
        invariant
            v@ == output@,
            start <= i <= v.len(),
            error_detail(output@) == detail_from(v@, i as int, v@.subrange(start as int, i as int)),
        decreases v.len() - i,
    {
        if v[i] == '\n' {
            match detail_of_line(&v, start, i) {
                Some(d) => {
                    return d;
                },
                None => {},
            }
            start = i + 1;
            assert(v@.subrange(start as int, i + 1) =~= Seq::<char>::empty());
        } else {
            assert(v@.subrange(start as int, i + 1) =~= v@.subrange(start as int, i as int).push(
                v@[i as int],
            ));
        }
        i += 1;
    }
    match detail_of_line(&v, start, i) {
        Some(d) => d,
        None => String::new(),
    }
}

/// The failure of a step whose command ended with this code and printed
/// this output.
pub fn step_failure(step: &Step, code: i64, output: &str) -> (e: Error)
    ensures
        e@ == failure_of(step@, code, error_detail(output@)),
{
    let detail = extract_error_line(output);
    match step.kind {
        StepKind::ExtraRepository => Error::RepositorySetup { code, detail },
        StepKind::SecondRepository => Error::RepositorySetup { code, detail },
        StepKind::SystemUpdate => Error::SystemUpdate { code, detail },
        StepKind::FileIndexRefresh => Error::FileIndexRefresh { code, detail },
        StepKind::PackageProbe => Error::PackageDNE { package: step.package.clone(), code, detail },
        StepKind::AurProbe => Error::PackageDNE { package: step.package.clone(), code, detail },
        StepKind::PackageInstall => Error::PackageInstall { code, detail },
        StepKind::AurInstall => Error::PackageInstall { code, detail },
    }
}

} // verus!
