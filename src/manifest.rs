use vstd::prelude::*;

verus! {

/// One component of a flash package: its file, relative to the package's
/// root, with the version, size and digest that the manifest declares.
#[derive(Debug)]
pub struct Package {
    pub name: String,
    pub version: String,
    pub size: u64,
    pub sha2: String,
}

/// The machine that a package is for.
#[derive(Debug)]
pub struct MachineInfo {
    pub name: String,
    pub generation: String,
    pub rev: String,
}

/// The six components of a flash package.
#[derive(Debug)]
pub struct Packages {
    pub linux: Package,
    pub rootfs: Package,
    pub uboot: Package,
    pub dtb: Package,
    pub mfgtools: Package,
    pub script: Package,
}

/// The manifest of a flash package.
#[derive(Debug)]
pub struct Manifest {
    pub id: String,
    pub version: String,
    pub channel: String,
    pub created_at: String,
    pub description: String,
    pub url: String,
    pub machine: MachineInfo,
    pub packages: Packages,
}

/// Why a flash stops before it succeeds.
#[derive(Debug)]
pub enum FlashError {
    /// The package file does not exist.
    PackageNotFound,
    /// No compatible device is connected.
    NoDeviceFound,
    /// The isolated directory could not be made, or the package could not be
    /// unpacked into it.
    Extraction,
    /// The package holds no manifest.
    ManifestMissing,
    /// The manifest does not fit its schema; the parser's message.
    ManifestParse(String),
    /// The package lacks this component's file.
    MissingComponent(String),
    /// The working directory could not be moved into the package.
    WorkingDirectory,
    /// The script file could not be read; its name.
    ScriptLoad(String),
    /// The engine failed a command; its message.
    CommandExecution(String),
    /// An event came that the session did not wait for.
    UnexpectedEvent,
}

/// The file names of the manifest's components, in the order in which they
/// are checked.
pub open spec fn component_names(m: Manifest) -> Seq<Seq<char>> {
    seq![
        m.packages.linux.name@,
        m.packages.rootfs.name@,
        m.packages.uboot.name@,
        m.packages.dtb.name@,
        m.packages.mfgtools.name@,
        m.packages.script.name@,
    ]
}

/// Whether component `i` was found: `present` says so for each component in
/// order, and a component that it does not reach counts as absent.
pub open spec fn is_present(present: Seq<bool>, i: int) -> bool {
    0 <= i < present.len() && present[i]
}

/// The first of the components `0..n` that was not found.
pub open spec fn first_missing(present: Seq<bool>, n: nat) -> Option<int>
    decreases n,
{
    if n == 0 {
        None
    } else {
        match first_missing(present, (n - 1) as nat) {
            Some(i) => Some(i),
            None => if !is_present(present, n - 1) {
                Some(n - 1)
            } else {
                None
            },
        }
    }
}

/// Component `i` of the manifest, in the order of `component_names`.
pub open spec fn component(m: Manifest, i: int) -> Package {
    if i == 0 {
        m.packages.linux
    } else if i == 1 {
        m.packages.rootfs
    } else if i == 2 {
        m.packages.uboot
    } else if i == 3 {
        m.packages.dtb
    } else if i == 4 {
        m.packages.mfgtools
    } else {
        m.packages.script
    }
}

/// What checking the components gives: success when all were found, else the
/// name of the first missing one.
pub open spec fn validation_of(m: Manifest, present: Seq<bool>) -> Result<(), FlashError> {
    match first_missing(present, 6) {
        None => Ok(()),
        Some(i) => Err(FlashError::MissingComponent(component(m, i).name)),
    }
}

/// `first_missing` is the least index below `n` of a component not found.
pub proof fn lemma_first_missing(present: Seq<bool>, n: nat)
    ensures
        match first_missing(present, n) {
            None => forall|j: int| 0 <= j < n ==> is_present(present, j),
            Some(i) => 0 <= i < n && !is_present(present, i) && forall|j: int|
                0 <= j < i ==> is_present(present, j),
        },
    decreases n,
{
    if n > 0 {
        lemma_first_missing(present, (n - 1) as nat);
    }
}

impl Manifest {
    /// The file names of the components, in the order in which they are
    /// checked.
    pub fn component_names(&self) -> (r: Vec<String>)
        ensures
            r.len() == 6,
            r@.map_values(|s: String| s@) == component_names(*self),
    {
        let r = vec![
            self.packages.linux.name.clone(),
            self.packages.rootfs.name.clone(),
            self.packages.uboot.name.clone(),
            self.packages.dtb.name.clone(),
            self.packages.mfgtools.name.clone(),
            self.packages.script.name.clone(),
        ];
        assert(r@.map_values(|s: String| s@) =~= component_names(*self));
        r
    }
}

/// Checks that the package holds every component, in order, stopping at the
/// first that is missing; `present[i]` says whether the file of component
/// `i` was found.
pub fn validate_components(manifest: &Manifest, present: &Vec<bool>) -> (r: Result<(), FlashError>)
    ensures
        r == validation_of(*manifest, present@),
{
    let mut i: usize = 0;
    while i < 6
        invariant
            i <= 6,
            first_missing(present@, i as nat) is None,
        decreases 6 - i,
    {
        if i >= present.len() || !present[i] {
            let name = if i == 0 {
                manifest.packages.linux.name.clone()
            } else if i == 1 {
                manifest.packages.rootfs.name.clone()
            } else if i == 2 {
                manifest.packages.uboot.name.clone()
            } else if i == 3 {
                manifest.packages.dtb.name.clone()
            } else if i == 4 {
                manifest.packages.mfgtools.name.clone()
            } else {
                manifest.packages.script.name.clone()
            };
            proof {
                assert(first_missing(present@, (i + 1) as nat) == Some(i as int));
                lemma_first_missing_stable(present@, (i + 1) as nat, 6);
            }
            return Err(FlashError::MissingComponent(name));
        }
        i += 1;
    }
    Ok(())
}

/// When the package lacks exactly one component's file, validation fails
/// naming exactly that component.
pub proof fn lemma_single_missing(m: Manifest, present: Seq<bool>, i: int)
    requires
        0 <= i < 6,
        !is_present(present, i),
        forall|j: int| 0 <= j < 6 && j != i ==> is_present(present, j),
    ensures
        validation_of(m, present) == Err::<(), FlashError>(
            FlashError::MissingComponent(component(m, i).name),
        ),
{
    lemma_first_missing(present, 6);
}

/// Once a component is found missing, looking further does not change which
/// is first.
pub proof fn lemma_first_missing_stable(present: Seq<bool>, n: nat, m: nat)
    requires
        n <= m,
        first_missing(present, n) is Some,
    ensures
        first_missing(present, m) == first_missing(present, n),
    decreases m - n,
{
    if n < m {
        lemma_first_missing_stable(present, n, (m - 1) as nat);
    }
}

} // verus!
