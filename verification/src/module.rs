//! The modules that were loaded in the captured process.
#![allow(non_snake_case)]

use crate::bytes::no_bytes;
use crate::data::{MINIDUMP_MODULE, MINIDUMP_MODULE_LIST};
use crate::error::UserDmpError;
use crate::stream::{
    agrees, keyed, lemma_keyed_ends, lemma_keyed_holds, lemma_keyed_rejects, lemma_keyed_step,
    lemma_keyed_stops,
    lemma_views_empty, lemma_views_insert, views, MinidumpStream,
};
use crate::text::{resolve_string, string_at};
use std::collections::BTreeMap;
use std::ops::Range;
use vstd::prelude::*;

verus! {

/// Represents the modules in a minidump file, mapped by their starting memory address.
pub type Modules<'a> = BTreeMap<u64, Module<'a>>;

/// Represents a module loaded in a process, including its memory range, checksum, path,
/// timestamp, and the CodeView and miscellaneous records of its debug information.
#[derive(Debug)]
pub struct Module<'a> {
    /// The memory range of the module.
    pub range: Range<u64>,
    /// The checksum of the module.
    pub checksum: u32,
    /// The path to the module file.
    pub path: String,
    /// The timestamp when the module was built, as a 32-bit UNIX time value.
    pub time_date_stamp: u32,
    /// The CodeView record of the module.
    pub cv_record: &'a [u8],
    /// The miscellaneous record of the module.
    pub misc_record: &'a [u8],
}

/// What a `Module` holds, as plain values.
pub ghost struct ModuleView {
    pub start: u64,
    pub end: u64,
    pub checksum: u32,
    pub path: Seq<char>,
    pub time_date_stamp: u32,
    pub cv_record: Seq<u8>,
    pub misc_record: Seq<u8>,
}

impl<'a> View for Module<'a> {
    type V = ModuleView;

    open spec fn view(&self) -> ModuleView {
        ModuleView {
            start: self.range.start,
            end: self.range.end,
            checksum: self.checksum,
            path: self.path@,
            time_date_stamp: self.time_date_stamp,
            cv_record: self.cv_record@,
            misc_record: self.misc_record@,
        }
    }
}

impl<'a> Clone for Module<'a> {
    fn clone(&self) -> (r: Self)
        ensures
            r@ == self@,
    {
        Module {
            range: Range { start: self.range.start, end: self.range.end },
            checksum: self.checksum,
            path: self.path.clone(),
            time_date_stamp: self.time_date_stamp,
            cv_record: self.cv_record,
            misc_record: self.misc_record,
        }
    }
}

/// Whether `part` stands in `text` as one piece: somewhere in `text`, the
/// characters of `part` follow one another, in their order and with nothing
/// between them.
pub open spec fn is_part_of(part: Seq<char>, text: Seq<char>) -> bool {
    exists|from: int, to: int|
        0 <= from <= to <= text.len() && #[trigger] text.subrange(from, to) == part
}

/// The place of the last `/` of `path`; -1 when it has none.
pub open spec fn last_slash(path: Seq<char>) -> int
    decreases path.len(),
{
    if path.len() == 0 {
        -1
    } else if path.last() == '/' {
        path.len() - 1
    } else {
        last_slash(path.drop_last())
    }
}

/// What stands in `path` behind its last `/`: all of it when it has none.
pub open spec fn after_last_slash(path: Seq<char>) -> Seq<char> {
    path.subrange(last_slash(path) + 1, path.len() as int)
}

/// Whether `text` is a component that Unix and Windows alike read as a name: it
/// is not empty, is neither `.` nor `..`, and holds no `/`, no `\` and no `:`.
pub open spec fn is_plain_component(text: Seq<char>) -> bool {
    &&& text.len() > 0
    &&& text != seq!['.']
    &&& text != seq!['.', '.']
    &&& forall|i: int|
        0 <= i < text.len() ==> text[i] != '/' && text[i] != '\\' && text[i] != ':'
}

/// Whether `path` is made of plain components with one `/` between each two of
/// them, and nothing else.
pub open spec fn is_plain_path(path: Seq<char>) -> bool
    decreases path.len(),
{
    let slash = last_slash(path);
    &&& is_plain_component(after_last_slash(path))
    &&& slash < path.len()
    &&& slash >= 0 ==> is_plain_path(path.subrange(0, slash))
}

impl<'a> Module<'a> {
    /// Whether the range of the module is not empty.
    pub open spec fn wf(&self) -> bool {
        self.range.start < self.range.end
    }

    /// Whether the image of `record` is an address range that is not empty and
    /// ends within the 64-bit address space.
    pub open spec fn valid_range(record: MINIDUMP_MODULE) -> bool {
        record.SizeOfImage != 0 && record.BaseOfImage + record.SizeOfImage <= u64::MAX
    }

    /// The module that `record` describes, under the name `name` and with the
    /// two records given. An error when its range is not valid.
    pub open spec fn of_record(
        record: MINIDUMP_MODULE,
        name: Seq<char>,
        cv_record: Seq<u8>,
        misc_record: Seq<u8>,
    ) -> Result<ModuleView, UserDmpError> {
        if !Self::valid_range(record) {
            Err(UserDmpError::InvalidMemoryRange)
        } else {
            Ok(
                ModuleView {
                    start: record.BaseOfImage,
                    end: (record.BaseOfImage + record.SizeOfImage) as u64,
                    checksum: record.CheckSum,
                    path: name,
                    time_date_stamp: record.TimeDateStamp,
                    cv_record,
                    misc_record,
                },
            )
        }
    }

    /// What one record of the module list gives: the base address of the module
    /// as the key, and the module, named by the string that the record points
    /// to. The range is checked first, then the name is resolved.
    pub open spec fn entry(bytes: Seq<u8>, record: MINIDUMP_MODULE) -> Result<
        (u64, ModuleView),
        UserDmpError,
    > {
        if !Self::valid_range(record) {
            Err(UserDmpError::InvalidMemoryRange)
        } else {
            match string_at(bytes, record.ModuleNameRva as int) {
                Err(e) => Err(e),
                Ok(name) => match Self::of_record(record, name, Seq::empty(), Seq::empty()) {
                    Err(e) => Err(e),
                    Ok(module) => Ok((record.BaseOfImage, module)),
                },
            }
        }
    }

    /// The entries of the module list whose records are `list`.
    pub open spec fn entries(bytes: Seq<u8>, list: Seq<MINIDUMP_MODULE>) -> Seq<
        Result<(u64, ModuleView), UserDmpError>,
    > {
        Seq::new(list.len(), |i: int| Self::entry(bytes, list[i]))
    }

    /// What the module list stream at `at` of `bytes` decodes to: the modules by
    /// their base address. An error when the list does not lie inside the
    /// buffer, and the error of the first module that fails.
    pub open spec fn stream_at(bytes: Seq<u8>, at: int) -> Result<
        Map<u64, ModuleView>,
        UserDmpError,
    > {
        if !MINIDUMP_MODULE_LIST::present(bytes, at) {
            Err(UserDmpError::MalformedRecord(at as u64))
        } else {
            keyed(Self::entries(bytes, MINIDUMP_MODULE_LIST::modules_at(bytes, at)))
        }
    }

    /// Whether every module of `modules` stands under its base address and
    /// has a range that is not empty.
    pub open spec fn keyed_by_base(modules: Map<u64, ModuleView>) -> bool {
        forall|base: u64|
            modules.contains_key(base) ==> (#[trigger] modules[base]).start == base
                && modules[base].start < modules[base].end
    }

    /// The modules of a module list that decodes stand under their base
    /// addresses, and none has an empty range.
    pub proof fn lemma_modules_keyed_by_base(bytes: Seq<u8>, at: int)
        ensures
            Self::stream_at(bytes, at) matches Ok(modules) ==> Self::keyed_by_base(modules),
    {
        lemma_keyed_holds(
            Self::entries(bytes, MINIDUMP_MODULE_LIST::modules_at(bytes, at)),
            |base: u64, module: ModuleView| module.start == base && module.start < module.end,
        );
    }

    /// A record of the module list whose image is empty is never accepted:
    /// alone it gives the error of an invalid range, whatever its name, and a
    /// list that holds it at the place `i` does not decode.
    pub proof fn lemma_empty_image_rejected(bytes: Seq<u8>, at: int, i: int, name: Seq<char>)
        requires
            MINIDUMP_MODULE_LIST::present(bytes, at),
            0 <= i < MINIDUMP_MODULE_LIST::modules_at(bytes, at).len(),
            MINIDUMP_MODULE_LIST::modules_at(bytes, at)[i].SizeOfImage == 0,
        ensures
            Self::of_record(
                MINIDUMP_MODULE_LIST::modules_at(bytes, at)[i],
                name,
                Seq::empty(),
                Seq::empty(),
            ) == Err::<ModuleView, UserDmpError>(UserDmpError::InvalidMemoryRange),
            Self::stream_at(bytes, at) is Err,
    {
        lemma_keyed_rejects(Self::entries(bytes, MINIDUMP_MODULE_LIST::modules_at(bytes, at)), i);
    }

    /// Computes the address range of the image of `module`: from its base
    /// address on, as many bytes as its size says. Fails when the range is
    /// empty, or ends beyond the 64-bit address space.
    pub fn range_of(module: &MINIDUMP_MODULE) -> (r: Result<Range<u64>, UserDmpError>)
        ensures
            match r {
                Ok(range) => Self::valid_range(*module) && range.start == module.BaseOfImage
                    && range.end == module.BaseOfImage + module.SizeOfImage,
                Err(e) => !Self::valid_range(*module) && e == UserDmpError::InvalidMemoryRange,
            },
    {
        let size = module.SizeOfImage as u64;
        if size == 0 || module.BaseOfImage > u64::MAX - size {
            return Err(UserDmpError::InvalidMemoryRange);
        }
        Ok(Range { start: module.BaseOfImage, end: module.BaseOfImage + size })
    }

    /// Creates a new `Module` from a `MINIDUMP_MODULE` record and its name.
    /// Fails when the record describes an empty range, or one that ends beyond
    /// the 64-bit address space.
    pub fn new(
        module: &MINIDUMP_MODULE,
        name: String,
        cv_record: &'a [u8],
        misc_record: &'a [u8],
    ) -> (r: Result<Self, UserDmpError>)
        ensures
            match r {
                Ok(m) => Self::of_record(*module, name@, cv_record@, misc_record@) == Ok::<
                    ModuleView,
                    UserDmpError,
                >(m@) && m.wf(),
                Err(e) => Self::of_record(*module, name@, cv_record@, misc_record@) == Err::<
                    ModuleView,
                    UserDmpError,
                >(e),
            },
    {
        let range = Self::range_of(module)?;
        Ok(
            Module {
                range,
                checksum: module.CheckSum,
                path: name,
                time_date_stamp: module.TimeDateStamp,
                cv_record,
                misc_record,
            },
        )
    }

    /// Returns the name of the module file: the last component of its path, as
    /// the platform reads paths. `None` when the path has no such component.
    ///
    /// A name that is returned is a piece of the path and is not empty. Where
    /// the path holds no `\`, the name holds no `/`. Where the path is made of
    /// plain components with `/` between them, the name is what stands behind
    /// the last `/`.
    pub fn name(&self) -> (r: Option<&str>)
        ensures
            r matches Some(name) ==> is_part_of(name@, self@.path) && name@.len() > 0
                && (!self@.path.contains('\\') ==> !name@.contains('/')),
            is_plain_path(self@.path) ==> (r matches Some(name) && name@ == after_last_slash(
                self@.path,
            )),
    {
        file_name_of(self.path.as_str())
    }

    /// Returns the starting memory address of the module.
    pub fn start_addr(&self) -> (r: u64)
        ensures
            r == self@.start,
    {
        self.range.start
    }

    /// Returns the last memory address of the module.
    pub fn end_addr(&self) -> (r: u64)
        requires
            self.wf(),
        ensures
            r == self@.end - 1,
    {
        self.range.end - 1
    }

    /// Returns the size of the module in bytes.
    pub fn len(&self) -> (r: u64)
        requires
            self.range.start <= self.range.end,
        ensures
            r == self@.end - self@.start,
    {
        self.range.end - self.range.start
    }

    /// Returns true if the module has zero size.
    pub fn is_empty(&self) -> (r: bool)
        requires
            self.range.start <= self.range.end,
        ensures
            r == (self@.start == self@.end),
    {
        self.len() == 0
    }
}

/// Calls `Path::file_name` and `OsStr::to_str` of the standard library on
/// `path`. Which characters separate the components of a path depends on the
/// platform, and on Windows on the prefix of the path as well: behind a
/// verbatim prefix, which starts with `\\?\`, `/` is an ordinary character.
/// The contract claims what the documentation says of Unix and of Windows
/// alike:
/// - a component is a slice of the path that it is taken from, between
///   separators, so the name is a piece of the path and is not empty;
/// - in a path without `\`, which has no verbatim prefix, `/` separates
///   components, so the name holds no `/`;
/// - of a path made of plain components with one `/` between each two, the
///   last component is the file name. Such a path has nothing that either
///   platform reads otherwise: no `\`, no `:` of a drive, no `.` or `..`
///   component, no `/` at its start or end.
#[verifier::external_body]
fn file_name_of(path: &str) -> (name: Option<&str>)
    ensures
        name matches Some(name) ==> is_part_of(name@, path@) && name@.len() > 0
            && (!path@.contains('\\') ==> !name@.contains('/')),
        is_plain_path(path@) ==> (name matches Some(name) && name@ == after_last_slash(path@)),
{
    std::path::Path::new(path).file_name()?.to_str()
}

impl<'a> MinidumpStream<'a> for Module<'a> {
    type Output = Modules<'a>;

    open spec fn decodes(bytes: Seq<u8>, at: int, out: Result<Modules<'a>, UserDmpError>) -> bool {
        agrees(out, Module::stream_at(bytes, at))
    }

    /// Parses the list of modules from the module list stream.
    fn parse(buffer: &'a [u8], rva: u32) -> (r: Result<Modules<'a>, UserDmpError>) {
        let list = MINIDUMP_MODULE_LIST::read(buffer, rva as usize)?;
        let ghost items = Module::entries(buffer@, list.Modules@);
        let mut modules: Modules<'a> = BTreeMap::new();
        let mut i: usize = 0;
        proof {
            lemma_views_empty::<u64, Module<'a>>();
        }
        while i < list.Modules.len()
            invariant
                i <= list.Modules.len(),
                items == Module::entries(buffer@, list.Modules@),
                Module::stream_at(buffer@, rva as int) == keyed(items),
                keyed(items.take(i as int)) == Ok::<Map<u64, ModuleView>, UserDmpError>(
                    views(modules@),
                ),
            decreases list.Modules.len() - i,
        {
            let record = &list.Modules[i];
            proof {
                lemma_keyed_step(items, i as int);
                if items[i as int] is Err {
                    lemma_keyed_stops(items, i + 1);
                }
            }
            // The range is checked before the name is looked up.
            Module::range_of(record)?;
            let name = resolve_string(buffer, record.ModuleNameRva)?;
            let module = Module::new(record, name, no_bytes(), no_bytes())?;
            proof {
                lemma_views_insert(modules@, module.range.start, module);
            }
            modules.insert(module.range.start, module);
            i += 1;
        }
        proof {
            lemma_keyed_ends(items);
        }
        Ok(modules)
    }
}

} // verus!
