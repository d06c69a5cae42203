//! Platform-specific dynamic-library naming and the symbol binding table.
//!
//! Opening a library and resolving a symbol are operating-system calls made by
//! the unverified shell; what is verified here is everything decided around
//! them: how a library file name is built for each platform family, and the
//! fail-fast rule that a binding table is usable only when every requested
//! symbol resolved to a non-null entry point.

use vstd::prelude::*;

verus! {

/// The desktop operating-system families the bridge targets. Dynamic-library
/// file naming differs between them.
#[derive(Clone, Copy, PartialEq, Eq, Structural, Debug)]
pub enum Platform {
    Windows,
    MacOs,
    Linux,
}

/// Builds the platform-specific file name of a dynamic library from its bare
/// name and version: `{name}{ver}.dll` on Windows, `lib{name}.{ver}.dylib` on
/// the macOS family, `lib{name}.so.{ver}` elsewhere.
pub fn dylib_file(platform: Platform, name: &str, ver: &str) -> (r: String)
    ensures
        platform == Platform::Windows ==> r@ == name@ + ver@ + ".dll"@,
        platform == Platform::MacOs ==> r@ == "lib"@ + name@ + "."@ + ver@ + ".dylib"@,
        platform == Platform::Linux ==> r@ == "lib"@ + name@ + ".so."@ + ver@,
{
    match platform {
        Platform::Windows => {
            let mut r = String::from_str(name);
            r.append(ver);
            r.append(".dll");
            r
        }
        Platform::MacOs => {
            let mut r = String::from_str("lib");
            r.append(name);
            r.append(".");
            r.append(ver);
            r.append(".dylib");
            r
        }
        Platform::Linux => {
            let mut r = String::from_str("lib");
            r.append(name);
            r.append(".so.");
            r.append(ver);
            r
        }
    }
}

/// Why a binding table could not be built. Resolution is a startup-time
/// precondition: a failure identifies what is missing and the whole
/// operation is abandoned before any entry point is used.
#[derive(Clone, Copy, PartialEq, Eq, Structural, Debug)]
pub enum BindError {
    /// The library itself could not be opened (the loader returned a null
    /// handle).
    LibraryNotFound,
    /// The symbol at this index of the requested set did not resolve (the
    /// loader returned a null address); it is the first such symbol.
    SymbolNotFound(usize),
}

/// An ordered set of (symbol name, resolved entry point) pairs scoped to one
/// opened library. Built once at load time; usable only when every declared
/// symbol resolved, which `bind_symbols` guarantees.
pub struct BindingTable {
    names: Vec<String>,
    addrs: Vec<u64>,
}

impl BindingTable {
    /// The symbol names, in declaration order.
    pub closed spec fn names(&self) -> Seq<Seq<char>> {
        self.names@.map(|i: int, s: String| s@)
    }

    /// The resolved entry-point addresses, in declaration order.
    pub closed spec fn addrs(&self) -> Seq<u64> {
        self.addrs@
    }

    /// A usable table pairs every name with a non-null entry point.
    pub open spec fn wf(&self) -> bool {
        &&& self.names().len() == self.addrs().len()
        &&& forall|i: int| 0 <= i < self.addrs().len() ==> self.addrs()[i] != 0
    }

    /// How many symbols the table binds.
    pub fn len(&self) -> (n: usize)
        ensures
            n == self.names().len(),
    {
        self.names.len()
    }

    /// The resolved entry point of the symbol at `i`; in a well-formed table
    /// it is never null, so every bound symbol is callable.
    pub fn entry(&self, i: usize) -> (addr: u64)
        requires
            self.wf(),
            i < self.addrs().len(),
        ensures
            addr == self.addrs()[i as int],
            addr != 0,
    {
        self.addrs[i]
    }
}

/// Builds the binding table for one opened library from the loader's answers:
/// `handle` is what opening the library returned and `addrs[i]` what resolving
/// `names[i]` returned, null (zero) standing for failure in both.
///
/// Fail-fast: the table is returned exactly when the library opened and every
/// symbol resolved; otherwise the first failure is identified and no entry
/// point is handed out at all.
pub fn bind_symbols(handle: u64, names: Vec<String>, addrs: Vec<u64>) -> (r: Result<
    BindingTable,
    BindError,
>)
    requires
        names@.len() == addrs@.len(),
    ensures
        (r is Ok) <==> (handle != 0 && forall|i: int| 0 <= i < addrs@.len() ==> addrs@[i] != 0),
        handle == 0 ==> r == Result::<BindingTable, BindError>::Err(BindError::LibraryNotFound),
        r matches Err(BindError::SymbolNotFound(k)) ==> {
            &&& handle != 0
            &&& k < addrs@.len()
            &&& addrs@[k as int] == 0
            &&& forall|i: int| 0 <= i < k ==> addrs@[i] != 0
        },
        r matches Ok(t) ==> {
            &&& t.wf()
            &&& t.names() == names@.map(|i: int, s: String| s@)
            &&& t.addrs() == addrs@
        },
{
    if handle == 0 {
        return Err(BindError::LibraryNotFound);
    }
    let mut i: usize = 0;
    while i < addrs.len()
        invariant
            handle != 0,
            i <= addrs@.len(),
            forall|j: int| 0 <= j < i ==> addrs@[j] != 0,
        decreases addrs@.len() - i,
    {
        if addrs[i] == 0 {
            return Err(BindError::SymbolNotFound(i));
        }
        i = i + 1;
    }
    Ok(BindingTable { names, addrs })
}

} // verus!
