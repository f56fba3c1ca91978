//! ELF analysis: the class, ABI and dynamic linking needs of a binary.
use vstd::prelude::*;
use crate::text;

verus! {

#[derive(Debug, Clone, Copy, PartialEq, Eq, Structural)]
pub enum ElfClass {
    Elf32,
    Elf64,
}

#[derive(Debug, Clone, Copy, PartialEq, Eq, Structural)]
pub enum Abi {
    Linux,
    Bionic,
}

/// What the analysis tells about a binary.
#[derive(Debug)]
pub struct ElfAnalysis {
    pub class: ElfClass,
    pub is_dynamic: bool,
    pub interpreter: Option<String>,
    pub needed_libs: Vec<String>,
    pub entry: u64,
    pub has_gnu_stack: bool,
    pub abi: Abi,
}

/// Why a binary could not be analysed.
#[derive(Debug, Clone, Copy, PartialEq, Eq, Structural)]
pub enum ElfError {
    /// The bytes are not an ELF file that the parser accepts.
    Malformed,
}

/// The parts of a parsed ELF file that the analysis reads.
#[derive(Debug)]
pub struct ElfFacts {
    pub is_64: bool,
    pub has_dynamic: bool,
    pub interpreter: Option<String>,
    pub libraries: Vec<String>,
    pub entry: u64,
    pub e_flags: u32,
}

/// The plain view of `ElfFacts`.
pub struct ElfFactsView {
    pub is_64: bool,
    pub has_dynamic: bool,
    pub interpreter: Option<Seq<char>>,
    pub libraries: Seq<Seq<char>>,
    pub entry: u64,
    pub e_flags: u32,
}

/// The view of an optional string.
pub open spec fn opt_view(o: Option<String>) -> Option<Seq<char>> {
    match o {
        Some(s) => Some(s@),
        None => None,
    }
}

impl View for ElfFacts {
    type V = ElfFactsView;

    open spec fn view(&self) -> ElfFactsView {
        ElfFactsView {
            is_64: self.is_64,
            has_dynamic: self.has_dynamic,
            interpreter: opt_view(self.interpreter),
            libraries: text::views(self.libraries@),
            entry: self.entry,
            e_flags: self.e_flags,
        }
    }
}

/// What goblin's ELF parser reads from `data`: nothing when it rejects the
/// bytes, otherwise the parts the analysis uses.
pub uninterp spec fn goblin_elf_parse(data: Seq<u8>) -> Option<ElfFactsView>;

/// The name of the first note that goblin's note iterator yields for the
/// ELF file in `data`: nothing when the file is rejected, has no notes, or
/// the first note cannot be read.
pub uninterp spec fn goblin_first_note_name(data: Seq<u8>) -> Option<Seq<char>>;

/// `goblin::error::Error`, the parser's error.
#[verifier::external_type_specification]
#[verifier::external_body]
pub struct ExGoblinError(goblin::error::Error);

/// Parse ELF bytes with `goblin::elf::Elf::parse`, and read from the result
/// whether it is 64-bit, whether it has a dynamic section, its interpreter,
/// its needed libraries, its entry point and the header's flags. The
/// contract claims only that the outcome is a function of the bytes.
#[verifier::external_body]
fn parse_elf(data: &[u8]) -> (r: Result<ElfFacts, goblin::error::Error>)
    ensures
        r is Ok <==> goblin_elf_parse(data@) is Some,
        r matches Ok(f) ==> goblin_elf_parse(data@) == Some(f@),
{
    let elf = goblin::elf::Elf::parse(data)?;
    Ok(ElfFacts {
        is_64: elf.is_64,
        has_dynamic: elf.dynamic.is_some(),
        interpreter: elf.interpreter.map(|s| s.to_string()),
        libraries: elf.libraries.iter().map(|s| s.to_string()).collect(),
        entry: elf.entry,
        e_flags: elf.header.e_flags,
    })
}

/// The name of the first note of the ELF file in `data`, as
/// `goblin::elf::Elf::iter_note_headers` yields it; the iterator belongs to
/// a parsed file, so the bytes are parsed for it. The contract claims only
/// that the name is a function of the bytes.
#[verifier::external_body]
fn first_note_name(data: &[u8]) -> (r: Option<String>)
    ensures
        opt_view(r) == goblin_first_note_name(data@),
{
    let elf = goblin::elf::Elf::parse(data).ok()?;
    let first = elf.iter_note_headers(data)?.next()?;
    match first {
        Ok(note) => Some(note.name.to_string()),
        Err(_) => None,
    }
}

/// The GNU stack flag in the header's flags.
pub const GNU_STACK_FLAG: u32 = 0x1000000;

/// The ABI of a binary whose first note has the name `note`: bionic when
/// the note is Android's, the Linux (glibc) ABI otherwise.
pub open spec fn abi_of(note: Option<Seq<char>>) -> Abi {
    if note == Some("Android"@) {
        Abi::Bionic
    } else {
        Abi::Linux
    }
}

/// The analysis of a parsed binary whose first note has the name `note`.
pub open spec fn analysis_of(f: ElfFactsView, note: Option<Seq<char>>, a: ElfAnalysis) -> bool {
    &&& a.class == (if f.is_64 { ElfClass::Elf64 } else { ElfClass::Elf32 })
    &&& a.is_dynamic == (f.has_dynamic || f.libraries.len() > 0)
    &&& opt_view(a.interpreter) == f.interpreter
    &&& text::views(a.needed_libs@) == f.libraries
    &&& a.entry == f.entry
    &&& a.has_gnu_stack == (f.e_flags & GNU_STACK_FLAG != 0)
    &&& a.abi == abi_of(note)
}

fn clone_opt(o: &Option<String>) -> (r: Option<String>)
    ensures
        opt_view(r) == opt_view(*o),
{
    match o {
        Some(s) => Some(s.clone()),
        None => None,
    }
}

/// Detect the ABI: the first note names Android for bionic binaries; any
/// other binary, whatever its interpreter, uses the Linux ABI.
pub fn detect_abi(facts: &ElfFacts, note: &Option<String>) -> (r: Abi)
    ensures
        r == abi_of(opt_view(*note)),
{
    match note {
        Some(name) => {
            if text::str_eq(name.as_str(), "Android") {
                return Abi::Bionic;
            }
        },
        None => {},
    }
    match &facts.interpreter {
        Some(interp) => {
            if text::contains_str(interp.as_str(), "ld-linux") {
                return Abi::Linux;
            }
        },
        None => {},
    }
    Abi::Linux
}

/// Analyse a parsed binary whose first note has the name `note`.
pub fn analysis_from(facts: &ElfFacts, note: &Option<String>) -> (r: ElfAnalysis)
    ensures
        analysis_of(facts@, opt_view(*note), r),
{
    ElfAnalysis {
        class: if facts.is_64 { ElfClass::Elf64 } else { ElfClass::Elf32 },
        is_dynamic: facts.has_dynamic || facts.libraries.len() > 0,
        interpreter: clone_opt(&facts.interpreter),
        needed_libs: text::copy_strings(&facts.libraries),
        entry: facts.entry,
        has_gnu_stack: facts.e_flags & GNU_STACK_FLAG != 0,
        abi: detect_abi(facts, note),
    }
}

/// Analyse the bytes of an ELF binary.
pub fn analyze_elf_bytes(data: &[u8]) -> (r: Result<ElfAnalysis, ElfError>)
    ensures
        match goblin_elf_parse(data@) {
            Some(f) => r matches Ok(a) && analysis_of(f, goblin_first_note_name(data@), a),
            None => r == Err::<ElfAnalysis, ElfError>(ElfError::Malformed),
        },
{
    match parse_elf(data) {
        Ok(facts) => {
            let note = first_note_name(data);
            Ok(analysis_from(&facts, &note))
        },
        Err(_) => Err(ElfError::Malformed),
    }
}

/// The reported class follows the ELF header: a binary is reported 64-bit
/// exactly when the parsed file is 64-bit, and 32-bit exactly when it is
/// not; the two classes never describe the same file.
pub proof fn law_class_follows_header(f: ElfFactsView, note: Option<Seq<char>>, a: ElfAnalysis)
    requires
        analysis_of(f, note, a),
    ensures
        (a.class == ElfClass::Elf64) <==> f.is_64,
        (a.class == ElfClass::Elf32) <==> !f.is_64,
{
}

} // verus!
