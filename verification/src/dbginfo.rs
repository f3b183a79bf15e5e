//! Owned, language-neutral view of the DWARF debugging information.
//!
//! [`OwnedSymbol`] mirrors the relevant subset of the DIE graph as a strict
//! tree: cross references (the datatype of a variable) are DIE offsets, never
//! owning pointers. Location and frame-base attributes are kept raw as
//! [`LocationAttr`] and evaluated lazily against the live tracee.

use vstd::prelude::*;

use crate::addr::Addr;
use crate::errors::DebuggerError;
use crate::dwarf_parse::{DwarfHandle, LineContext, load_dwarf, line_context};

verus! {

/// The DWARF tag codes the engine distinguishes.
pub const DW_TAG_FORMAL_PARAMETER: u16 = 0x05;
pub const DW_TAG_LEXICAL_BLOCK: u16 = 0x0b;
pub const DW_TAG_COMPILE_UNIT: u16 = 0x11;
pub const DW_TAG_COMMON_BLOCK: u16 = 0x1a;
pub const DW_TAG_BASE_TYPE: u16 = 0x24;
pub const DW_TAG_CATCH_BLOCK: u16 = 0x25;
pub const DW_TAG_CONSTANT: u16 = 0x27;
pub const DW_TAG_SUBPROGRAM: u16 = 0x2e;
pub const DW_TAG_TRY_BLOCK: u16 = 0x32;
pub const DW_TAG_VARIABLE: u16 = 0x34;

/// The kind of DWARF entry an [`OwnedSymbol`] stands for.
#[derive(Debug, Clone, Copy, Hash, PartialEq, Eq, Structural)]
#[non_exhaustive]
pub enum SymbolKind {
    Function,
    CompileUnit,
    Variable,
    Other,
    BaseType,
    Constant,
    Parameter,
    Block,
}

/// What `SymbolKind::from_tag` returns for each DWARF tag code.
pub open spec fn spec_kind_of_tag(tag: u16) -> SymbolKind {
    if tag == DW_TAG_COMPILE_UNIT {
        SymbolKind::CompileUnit
    } else if tag == DW_TAG_SUBPROGRAM {
        SymbolKind::Function
    } else if tag == DW_TAG_VARIABLE {
        SymbolKind::Variable
    } else if tag == DW_TAG_CONSTANT {
        SymbolKind::Constant
    } else if tag == DW_TAG_FORMAL_PARAMETER {
        SymbolKind::Parameter
    } else if tag == DW_TAG_BASE_TYPE {
        SymbolKind::BaseType
    } else if tag == DW_TAG_TRY_BLOCK || tag == DW_TAG_CATCH_BLOCK
        || tag == DW_TAG_LEXICAL_BLOCK || tag == DW_TAG_COMMON_BLOCK {
        SymbolKind::Block
    } else {
        SymbolKind::Other
    }
}

impl SymbolKind {
    /// Maps a DWARF tag code to the symbol kind it stands for; tags the
    /// engine does not model become `Other`.
    pub fn from_tag(tag: u16) -> (k: SymbolKind)
        ensures
            k == spec_kind_of_tag(tag),
    {
        if tag == DW_TAG_COMPILE_UNIT {
            SymbolKind::CompileUnit
        } else if tag == DW_TAG_SUBPROGRAM {
            SymbolKind::Function
        } else if tag == DW_TAG_VARIABLE {
            SymbolKind::Variable
        } else if tag == DW_TAG_CONSTANT {
            SymbolKind::Constant
        } else if tag == DW_TAG_FORMAL_PARAMETER {
            SymbolKind::Parameter
        } else if tag == DW_TAG_BASE_TYPE {
            SymbolKind::BaseType
        } else if tag == DW_TAG_TRY_BLOCK || tag == DW_TAG_CATCH_BLOCK
            || tag == DW_TAG_LEXICAL_BLOCK || tag == DW_TAG_COMMON_BLOCK {
            SymbolKind::Block
        } else {
            SymbolKind::Other
        }
    }
}

/// The encoding of the compile unit a symbol came from: what is needed to
/// evaluate the symbol's raw attributes later.
#[derive(Debug, Clone, Copy, PartialEq, Eq, Structural)]
pub struct UnitEncoding {
    /// DWARF version of the unit (2 through 5).
    pub version: u16,
    /// Size in bytes of a target address.
    pub address_size: u8,
    /// Whether the unit uses the 64-bit DWARF format.
    pub is_dwarf64: bool,
}

/// One entry of a location list: the expression holding while the
/// program counter lies in `[begin, end)`, both module-relative.
#[derive(Debug, PartialEq, Eq)]
pub struct LocListEntry {
    /// First module-relative address the entry covers.
    pub begin: u64,
    /// First module-relative address past the entry.
    pub end: u64,
    /// The entry's expression bytecode.
    pub expr: Vec<u8>,
}

/// A raw DWARF location attribute, preserved unevaluated.
#[derive(Debug, PartialEq, Eq)]
pub enum LocationAttr {
    /// An expression block: bytecode for the DWARF stack machine.
    Expr(Vec<u8>),
    /// A location list: ranges of the program counter, each with its own
    /// expression.
    List(Vec<LocListEntry>),
}

/// The mathematical value of a [`LocListEntry`].
#[verifier::ext_equal]
pub ghost struct LocEntryView {
    pub begin: u64,
    pub end: u64,
    pub expr: Seq<u8>,
}

impl View for LocListEntry {
    type V = LocEntryView;

    open spec fn view(&self) -> LocEntryView {
        LocEntryView { begin: self.begin, end: self.end, expr: self.expr@ }
    }
}

/// The mathematical value of a [`LocationAttr`].
#[verifier::ext_equal]
pub ghost enum LocAttrView {
    Expr(Seq<u8>),
    List(Seq<LocEntryView>),
}

impl View for LocationAttr {
    type V = LocAttrView;

    open spec fn view(&self) -> LocAttrView {
        match self {
            LocationAttr::Expr(bytes) => LocAttrView::Expr(bytes@),
            LocationAttr::List(entries) => LocAttrView::List(
                Seq::new(entries@.len(), |i: int| entries@[i]@),
            ),
        }
    }
}

impl Clone for LocListEntry {
    fn clone(&self) -> (r: Self)
        ensures
            r@ == self@,
    {
        LocListEntry { begin: self.begin, end: self.end, expr: clone_bytes(&self.expr) }
    }
}

/// The mathematical value of an [`OwnedSymbol`]: the same fields with
/// sequences in place of vectors and strings.
#[verifier::ext_equal]
pub ghost struct SymbolView {
    pub offset: int,
    pub name: Option<Seq<char>>,
    pub low_addr: Option<Addr>,
    pub high_addr: Option<Addr>,
    pub datatype: Option<int>,
    pub kind: SymbolKind,
    pub children: Seq<SymbolView>,
    pub location: Option<LocAttrView>,
    pub frame_base: Option<LocAttrView>,
    pub byte_size: Option<int>,
    pub encoding: UnitEncoding,
}

/// The view of one symbol; recursion bottoms out at leaves.
pub open spec fn sym_view(s: OwnedSymbol) -> SymbolView
    decreases s,
{
    SymbolView {
        offset: s.offset as int,
        name: match s.name {
            Some(n) => Some(n@),
            None => None,
        },
        low_addr: s.low_addr,
        high_addr: s.high_addr,
        datatype: match s.datatype {
            Some(d) => Some(d as int),
            None => None,
        },
        kind: s.kind,
        children: views_of_from(s.children@, 0),
        location: match s.location {
            Some(l) => Some(l@),
            None => None,
        },
        frame_base: match s.frame_base {
            Some(l) => Some(l@),
            None => None,
        },
        byte_size: match s.byte_size {
            Some(b) => Some(b as int),
            None => None,
        },
        encoding: s.encoding,
    }
}

/// The views of the symbols `ss[from..]`, in order.
pub open spec fn views_of_from(ss: Seq<OwnedSymbol>, from: int) -> Seq<SymbolView>
    decreases ss, ss.len() - from,
{
    if from < 0 || from >= ss.len() {
        Seq::empty()
    } else {
        seq![sym_view(ss[from])] + views_of_from(ss, from + 1)
    }
}

/// The views of a sequence of symbols.
pub open spec fn views_of(ss: Seq<OwnedSymbol>) -> Seq<SymbolView> {
    views_of_from(ss, 0)
}

/// `views_of_from(ss, from)` is the element-wise view of `ss[from..]`.
pub proof fn lemma_views_of_from(ss: Seq<OwnedSymbol>, from: int)
    requires
        0 <= from <= ss.len(),
    ensures
        views_of_from(ss, from).len() == ss.len() - from,
        forall|k: int| 0 <= k < ss.len() - from
            ==> views_of_from(ss, from)[k] == sym_view(ss[from + k]),
    decreases ss.len() - from,
{
    if from < ss.len() {
        lemma_views_of_from(ss, from + 1);
    }
}

/// `views_of(ss)` is the element-wise view of `ss`.
pub proof fn lemma_views_of(ss: Seq<OwnedSymbol>)
    ensures
        views_of(ss).len() == ss.len(),
        forall|k: int| 0 <= k < ss.len() ==> views_of(ss)[k] == sym_view(ss[k]),
{
    lemma_views_of_from(ss, 0);
}

impl View for OwnedSymbol {
    type V = SymbolView;

    open spec fn view(&self) -> SymbolView {
        sym_view(*self)
    }
}

/// A node of the owned symbol tree.
#[derive(Debug)]
pub struct OwnedSymbol {
    /// DIE offset within the owning unit; the symbol's primary key.
    pub offset: usize,
    /// The name attribute, if any.
    pub name: Option<String>,
    /// Absolute start of the PC range, for functions and blocks.
    pub low_addr: Option<Addr>,
    /// Absolute end of the PC range, for functions and blocks.
    pub high_addr: Option<Addr>,
    /// DIE offset of the type describing this symbol.
    pub datatype: Option<usize>,
    /// What kind of DWARF entry this symbol stands for.
    pub kind: SymbolKind,
    /// Owned child symbols, in document order.
    pub children: Vec<OwnedSymbol>,
    /// Raw location attribute, evaluated lazily.
    pub location: Option<LocationAttr>,
    /// Raw frame-base attribute, evaluated lazily.
    pub frame_base: Option<LocationAttr>,
    /// Size in bytes, for base types.
    pub byte_size: Option<usize>,
    /// Encoding of the owning compile unit.
    pub encoding: UnitEncoding,
}

impl Clone for LocationAttr {
    fn clone(&self) -> (r: Self)
        ensures
            r@ == self@,
    {
        match self {
            LocationAttr::Expr(bytes) => LocationAttr::Expr(clone_bytes(bytes)),
            LocationAttr::List(entries) => {
                let mut out: Vec<LocListEntry> = Vec::new();
                let mut i: usize = 0;
                while i < entries.len()
                    invariant
                        i <= entries@.len(),
                        out@.len() == i as int,
                        forall|j: int| 0 <= j < i ==> out@[j]@ == entries@[j]@,
                    decreases entries@.len() - i,
                {
                    out.push(entries[i].clone());
                    i = i + 1;
                }
                let r = LocationAttr::List(out);
                proof {
                    assert(Seq::new(out@.len(), |i: int| out@[i]@)
                        =~= Seq::new(entries@.len(), |i: int| entries@[i]@));
                }
                r
            }
        }
    }
}

/// An element-wise copy of a byte vector.
fn clone_bytes(v: &Vec<u8>) -> (r: Vec<u8>)
    ensures
        r@ == v@,
{
    let mut out: Vec<u8> = Vec::new();
    let mut i: usize = 0;
    while i < v.len()
        invariant
            i <= v.len(),
            out@ == v@.take(i as int),
        decreases v.len() - i,
    {
        out.push(v[i]);
        i = i + 1;
    }
    proof {
        assert(v@.take(v.len() as int) == v@);
    }
    out
}

impl Clone for OwnedSymbol {
    fn clone(&self) -> (r: Self)
        ensures
            r@ == self@,
        decreases *self,
    {
        let mut kids: Vec<OwnedSymbol> = Vec::new();
        let mut i: usize = 0;
        while i < self.children.len()
            invariant
                i <= self.children.len(),
                kids@.len() == i as int,
                forall|j: int| 0 <= j < i ==> kids@[j]@ == self.children@[j]@,
            decreases self.children.len() - i,
        {
            kids.push(self.children[i].clone());
            i = i + 1;
        }
        proof {
            lemma_views_of(kids@);
            lemma_views_of(self.children@);
            assert(views_of(kids@) =~= views_of(self.children@));
        }
        let name = match &self.name {
            Some(n) => Some(n.clone()),
            None => None,
        };
        let location = match &self.location {
            Some(l) => Some(l.clone()),
            None => None,
        };
        let frame_base = match &self.frame_base {
            Some(l) => Some(l.clone()),
            None => None,
        };
        let r = OwnedSymbol {
            offset: self.offset,
            name,
            low_addr: self.low_addr,
            high_addr: self.high_addr,
            datatype: self.datatype,
            kind: self.kind,
            children: kids,
            location,
            frame_base,
            byte_size: self.byte_size,
            encoding: self.encoding,
        };
        proof {
            assert(r@ =~= self@);
        }
        r
    }
}

impl OwnedSymbol {
    /// A fresh symbol with the given offset, kind, children and unit
    /// encoding; every attribute starts out absent.
    pub fn new(code: usize, kind: SymbolKind, children: Vec<OwnedSymbol>, encoding: UnitEncoding) -> (s: Self)
        ensures
            s.offset == code,
            s.kind == kind,
            s.children == children,
            s.encoding == encoding,
            s.name is None,
            s.low_addr is None,
            s.high_addr is None,
            s.datatype is None,
            s.location is None,
            s.frame_base is None,
            s.byte_size is None,
    {
        Self {
            offset: code,
            name: None,
            low_addr: None,
            high_addr: None,
            kind,
            datatype: None,
            location: None,
            frame_base: None,
            children,
            byte_size: None,
            encoding,
        }
    }

    pub fn set_offset(&mut self, offset: usize)
        ensures
            *final(self) == (OwnedSymbol { offset, ..*old(self) }),
    {
        self.offset = offset;
    }

    pub fn set_name(&mut self, name: Option<String>)
        ensures
            *final(self) == (OwnedSymbol { name, ..*old(self) }),
    {
        self.name = name;
    }

    pub fn set_low_addr(&mut self, low_addr: Option<Addr>)
        ensures
            *final(self) == (OwnedSymbol { low_addr, ..*old(self) }),
    {
        self.low_addr = low_addr;
    }

    pub fn set_high_addr(&mut self, high_addr: Option<Addr>)
        ensures
            *final(self) == (OwnedSymbol { high_addr, ..*old(self) }),
    {
        self.high_addr = high_addr;
    }

    pub fn set_datatype(&mut self, datatype: Option<usize>)
        ensures
            *final(self) == (OwnedSymbol { datatype, ..*old(self) }),
    {
        self.datatype = datatype;
    }

    pub fn set_kind(&mut self, kind: SymbolKind)
        ensures
            *final(self) == (OwnedSymbol { kind, ..*old(self) }),
    {
        self.kind = kind;
    }

    pub fn set_children(&mut self, children: Vec<OwnedSymbol>)
        ensures
            *final(self) == (OwnedSymbol { children, ..*old(self) }),
    {
        self.children = children;
    }

    pub fn set_location(&mut self, location: Option<LocationAttr>)
        ensures
            *final(self) == (OwnedSymbol { location, ..*old(self) }),
    {
        self.location = location;
    }

    pub fn set_frame_base(&mut self, frame_base: Option<LocationAttr>)
        ensures
            *final(self) == (OwnedSymbol { frame_base, ..*old(self) }),
    {
        self.frame_base = frame_base;
    }

    pub fn set_byte_size(&mut self, byte_size: Option<usize>)
        ensures
            *final(self) == (OwnedSymbol { byte_size, ..*old(self) }),
    {
        self.byte_size = byte_size;
    }

    pub fn set_encoding(&mut self, encoding: UnitEncoding)
        ensures
            *final(self) == (OwnedSymbol { encoding, ..*old(self) }),
    {
        self.encoding = encoding;
    }

    pub fn offset(&self) -> (r: usize)
        ensures
            r == self.offset,
    {
        self.offset
    }

    pub fn name(&self) -> (r: Option<&String>)
        ensures
            r == self.name_spec(),
    {
        self.name.as_ref()
    }

    /// The name attribute, if present.
    pub open spec fn name_spec(&self) -> Option<&String> {
        match self.name {
            Some(ref n) => Some(n),
            None => None,
        }
    }

    pub fn low_addr(&self) -> (r: Option<Addr>)
        ensures
            r == self.low_addr,
    {
        self.low_addr
    }

    pub fn high_addr(&self) -> (r: Option<Addr>)
        ensures
            r == self.high_addr,
    {
        self.high_addr
    }

    pub fn datatype(&self) -> (r: Option<usize>)
        ensures
            r == self.datatype,
    {
        self.datatype
    }

    pub fn kind(&self) -> (r: SymbolKind)
        ensures
            r == self.kind,
    {
        self.kind
    }

    pub fn children(&self) -> (r: &Vec<OwnedSymbol>)
        ensures
            r == self.children,
    {
        &self.children
    }

    /// The raw location attribute, if present.
    pub open spec fn location_spec(&self) -> Option<&LocationAttr> {
        match self.location {
            Some(ref l) => Some(l),
            None => None,
        }
    }

    pub fn location(&self) -> (r: Option<&LocationAttr>)
        ensures
            r == self.location_spec(),
    {
        self.location.as_ref()
    }

    /// The raw frame-base attribute, if present.
    pub open spec fn frame_base_spec(&self) -> Option<&LocationAttr> {
        match self.frame_base {
            Some(ref l) => Some(l),
            None => None,
        }
    }

    pub fn frame_base(&self) -> (r: Option<&LocationAttr>)
        ensures
            r == self.frame_base_spec(),
    {
        self.frame_base.as_ref()
    }

    pub fn byte_size(&self) -> (r: Option<usize>)
        ensures
            r == self.byte_size,
    {
        self.byte_size
    }

    pub fn encoding(&self) -> (r: UnitEncoding)
        ensures
            r == self.encoding,
    {
        self.encoding
    }

}

/// Whether a symbol's view carries exactly the given name.
pub open spec fn view_has_name(v: SymbolView, name: Seq<char>) -> bool {
    match v.name {
        Some(n) => n == name,
        None => false,
    }
}

/// The views of the symbols of the tree rooted at `v` whose name is
/// `name`, in depth-first pre-order.
pub open spec fn spec_tree_hits(v: SymbolView, name: Seq<char>) -> Seq<SymbolView>
    decreases v,
{
    let own: Seq<SymbolView> = if view_has_name(v, name) {
        seq![v]
    } else {
        Seq::empty()
    };
    own + spec_forest_hits(v.children, 0, name)
}

/// The views of the symbols of the sub-forest `vs[from..]` whose name is
/// `name`, in depth-first pre-order.
pub open spec fn spec_forest_hits(vs: Seq<SymbolView>, from: int, name: Seq<char>) -> Seq<SymbolView>
    decreases vs, vs.len() - from,
{
    if from < 0 || from >= vs.len() {
        Seq::empty()
    } else {
        spec_tree_hits(vs[from], name) + spec_forest_hits(vs, from + 1, name)
    }
}

/// The view of the first function in the forest `vs[from..]`, in
/// depth-first pre-order, whose address range contains `addr`.
pub open spec fn spec_find_function(vs: Seq<SymbolView>, from: int, addr: Addr) -> Option<SymbolView>
    decreases vs, vs.len() - from,
{
    if from < 0 || from >= vs.len() {
        None
    } else {
        match spec_tree_find_function(vs[from], addr) {
            Some(f) => Some(f),
            None => spec_find_function(vs, from + 1, addr),
        }
    }
}

/// Whether a symbol view is a function whose range `[low, high)` contains
/// `addr`.
pub open spec fn view_function_contains(v: SymbolView, addr: Addr) -> bool {
    &&& v.kind == SymbolKind::Function
    &&& v.low_addr matches Some(l) && l@ <= addr@
    &&& v.high_addr matches Some(h) && addr@ < h@
}

/// The view of the first function in the tree rooted at `v`, in
/// depth-first pre-order, whose address range contains `addr`.
pub open spec fn spec_tree_find_function(v: SymbolView, addr: Addr) -> Option<SymbolView>
    decreases v,
{
    if view_function_contains(v, addr) {
        Some(v)
    } else {
        spec_find_function(v.children, 0, addr)
    }
}

/// Appending one symbol to a vector appends its view to the views.
pub proof fn lemma_views_of_push(ss: Seq<OwnedSymbol>, s: OwnedSymbol)
    ensures
        views_of(ss.push(s)) =~= views_of(ss).push(sym_view(s)),
{
    lemma_views_of(ss.push(s));
    lemma_views_of(ss);
}

/// Collects the symbols named `name` of the tree rooted at `s`, in
/// depth-first pre-order, appending copies to `out`.
fn collect_tree_hits(s: &OwnedSymbol, name: &String, out: &mut Vec<OwnedSymbol>)
    ensures
        views_of(final(out)@) =~= views_of(old(out)@) + spec_tree_hits(s@, name@),
    decreases *s,
{
    let ghost entry = out@;
    let matches_name = match s.name() {
        Some(n) => n.eq(name),
        None => false,
    };
    proof {
        assert(matches_name == view_has_name(s@, name@));
    }
    if matches_name {
        let copy = s.clone();
        out.push(copy);
        proof {
            lemma_views_of_push(entry, copy);
        }
    }
    proof {
        lemma_views_of(out@);
        lemma_views_of(entry);
    }
    let ghost after_own = out@;
    proof {
        if view_has_name(s@, name@) {
            assert(views_of(after_own) =~= views_of(entry) + seq![sym_view(*s)]);
        } else {
            assert(views_of(after_own) =~= views_of(entry));
        }
    }
    let children = s.children();
    let ghost kid_views = s@.children;
    proof {
        lemma_views_of_from(children@, 0);
        assert(kid_views == views_of(children@));
    }
    let mut i: usize = 0;
    while i < children.len()
        invariant
            i <= children@.len(),
            kid_views == s@.children,
            kid_views == views_of(children@),
            children@ == s.children@,
            views_of(out@) + spec_forest_hits(kid_views, i as int, name@)
                =~= views_of(entry) + spec_tree_hits(s@, name@),
        decreases children@.len() - i,
    {
        proof {
            lemma_views_of_from(children@, 0);
            assert(kid_views[i as int] == sym_view(children@[i as int]));
        }
        collect_tree_hits(&children[i], name, out);
        i = i + 1;
    }
    proof {
        assert(spec_forest_hits(kid_views, children@.len() as int, name@) =~= Seq::empty());
        assert(views_of(out@) =~= views_of(out@) + Seq::<SymbolView>::empty());
    }
}

/// All symbols named `name` in the forest `haystack`, as copies in
/// depth-first pre-order: exactly the hits of the mathematical search.
pub fn symbols_with_name(haystack: &Vec<OwnedSymbol>, name: &String) -> (r: Vec<OwnedSymbol>)
    ensures
        views_of(r@) == spec_forest_hits(views_of(haystack@), 0, name@),
{
    let mut out: Vec<OwnedSymbol> = Vec::new();
    let ghost views = views_of(haystack@);
    proof {
        lemma_views_of(haystack@);
        assert(views_of(out@) =~= Seq::<SymbolView>::empty());
    }
    let mut i: usize = 0;
    while i < haystack.len()
        invariant
            i <= haystack@.len(),
            views == views_of(haystack@),
            views_of(out@) + spec_forest_hits(views, i as int, name@)
                =~= spec_forest_hits(views, 0, name@),
        decreases haystack@.len() - i,
    {
        proof {
            lemma_views_of(haystack@);
            assert(views[i as int] == sym_view(haystack@[i as int]));
        }
        collect_tree_hits(&haystack[i], name, &mut out);
        i = i + 1;
    }
    proof {
        assert(spec_forest_hits(views, haystack@.len() as int, name@) =~= Seq::empty());
        assert(views_of(out@) =~= views_of(out@) + Seq::<SymbolView>::empty());
    }
    out
}

/// The first function of the tree rooted at `s`, in depth-first
/// pre-order, whose range contains `addr`, as a copy.
fn tree_find_function(s: &OwnedSymbol, addr: Addr) -> (r: Option<OwnedSymbol>)
    ensures
        match r {
            Some(f) => spec_tree_find_function(s@, addr) == Some(f@),
            None => spec_tree_find_function(s@, addr) is None,
        },
    decreases *s,
{
    let is_hit = match (s.kind(), s.low_addr(), s.high_addr()) {
        (SymbolKind::Function, Some(l), Some(h)) => {
            l.value() <= addr.value() && addr.value() < h.value()
        }
        _ => false,
    };
    if is_hit {
        let copy = s.clone();
        return Some(copy);
    }
    let children = s.children();
    let ghost kid_views = s@.children;
    proof {
        lemma_views_of_from(children@, 0);
    }
    let mut i: usize = 0;
    while i < children.len()
        invariant
            i <= children@.len(),
            kid_views == s@.children,
            children@ == s.children@,
            !view_function_contains(s@, addr),
            spec_find_function(kid_views, i as int, addr)
                == spec_find_function(kid_views, 0, addr),
        decreases children@.len() - i,
    {
        proof {
            lemma_views_of_from(children@, 0);
            assert(kid_views[i as int] == sym_view(children@[i as int]));
        }
        let found = tree_find_function(&children[i], addr);
        if let Some(f) = found {
            return Some(f);
        }
        i = i + 1;
    }
    proof {
        lemma_views_of_from(children@, 0);
        assert(spec_find_function(kid_views, children@.len() as int, addr) is None);
    }
    None
}

/// The first function in the forest `haystack`, in depth-first pre-order,
/// whose range `[low, high)` contains `addr`, as a copy; `None` when no
/// function's range contains it.
pub fn find_function_by_addr(haystack: &Vec<OwnedSymbol>, addr: Addr) -> (r: Option<OwnedSymbol>)
    ensures
        match r {
            Some(f) => spec_find_function(views_of(haystack@), 0, addr) == Some(f@),
            None => spec_find_function(views_of(haystack@), 0, addr) is None,
        },
{
    let ghost views = views_of(haystack@);
    let mut i: usize = 0;
    while i < haystack.len()
        invariant
            i <= haystack@.len(),
            views == views_of(haystack@),
            spec_find_function(views, i as int, addr) == spec_find_function(views, 0, addr),
        decreases haystack@.len() - i,
    {
        proof {
            lemma_views_of(haystack@);
            assert(views[i as int] == sym_view(haystack@[i as int]));
        }
        let found = tree_find_function(&haystack[i], addr);
        if let Some(f) = found {
            return Some(f);
        }
        i = i + 1;
    }
    proof {
        lemma_views_of(haystack@);
        assert(spec_find_function(views, haystack@.len() as int, addr) is None);
    }
    None
}

/// Whether a symbol view is a base type with the given DIE offset.
pub open spec fn view_is_base_type(v: SymbolView, offset: int) -> bool {
    v.kind == SymbolKind::BaseType && v.offset == offset
}

/// The view of the first base type with DIE offset `offset` in the
/// forest `vs[from..]`, in depth-first pre-order.
pub open spec fn spec_find_base(vs: Seq<SymbolView>, from: int, offset: int) -> Option<SymbolView>
    decreases vs, vs.len() - from,
{
    if from < 0 || from >= vs.len() {
        None
    } else {
        match spec_tree_find_base(vs[from], offset) {
            Some(b) => Some(b),
            None => spec_find_base(vs, from + 1, offset),
        }
    }
}

/// The view of the first base type with DIE offset `offset` in the tree
/// rooted at `v`, in depth-first pre-order.
pub open spec fn spec_tree_find_base(v: SymbolView, offset: int) -> Option<SymbolView>
    decreases v,
{
    if view_is_base_type(v, offset) {
        Some(v)
    } else {
        spec_find_base(v.children, 0, offset)
    }
}

/// The first symbol of kind `BaseType` with the given DIE offset, in
/// depth-first pre-order, as a copy: the resolution of a symbol's
/// `datatype` reference. `None` exactly when the tree holds no base type
/// at that offset.
pub fn find_base_type(haystack: &Vec<OwnedSymbol>, offset: usize) -> (r: Option<OwnedSymbol>)
    ensures
        match r {
            Some(b) => spec_find_base(views_of(haystack@), 0, offset as int) == Some(b@),
            None => spec_find_base(views_of(haystack@), 0, offset as int) is None,
        },
{
    let ghost views = views_of(haystack@);
    let mut i: usize = 0;
    while i < haystack.len()
        invariant
            i <= haystack@.len(),
            views == views_of(haystack@),
            spec_find_base(views, i as int, offset as int)
                == spec_find_base(views, 0, offset as int),
        decreases haystack@.len() - i,
    {
        proof {
            lemma_views_of(haystack@);
            assert(views[i as int] == sym_view(haystack@[i as int]));
        }
        let found = tree_find_base_type(&haystack[i], offset);
        if let Some(b) = found {
            return Some(b);
        }
        i = i + 1;
    }
    proof {
        lemma_views_of(haystack@);
        assert(spec_find_base(views, haystack@.len() as int, offset as int) is None);
    }
    None
}

/// Searches one tree for a base type by DIE offset, as a copy.
fn tree_find_base_type(s: &OwnedSymbol, offset: usize) -> (r: Option<OwnedSymbol>)
    ensures
        match r {
            Some(b) => spec_tree_find_base(s@, offset as int) == Some(b@),
            None => spec_tree_find_base(s@, offset as int) is None,
        },
    decreases *s,
{
    let is_hit = match s.kind() {
        SymbolKind::BaseType => s.offset() == offset,
        _ => false,
    };
    if is_hit {
        let copy = s.clone();
        return Some(copy);
    }
    let children = s.children();
    let ghost kid_views = s@.children;
    proof {
        lemma_views_of_from(children@, 0);
    }
    let mut i: usize = 0;
    while i < children.len()
        invariant
            i <= children@.len(),
            kid_views == s@.children,
            children@ == s.children@,
            !view_is_base_type(s@, offset as int),
            spec_find_base(kid_views, i as int, offset as int)
                == spec_find_base(kid_views, 0, offset as int),
        decreases children@.len() - i,
    {
        proof {
            lemma_views_of_from(children@, 0);
            assert(kid_views[i as int] == sym_view(children@[i as int]));
        }
        let found = tree_find_base_type(&children[i], offset);
        if let Some(b) = found {
            return Some(b);
        }
        i = i + 1;
    }
    proof {
        lemma_views_of_from(children@, 0);
        assert(spec_find_base(kid_views, children@.len() as int, offset as int) is None);
    }
    None
}

/// The absolute low address derived from a resolved `low_pc` value: the
/// module base plus the resolved address; an attribute that is absent,
/// unresolvable, or whose sum would wrap yields no address.
pub fn derive_low_addr(low: Option<u64>, base: Addr) -> (r: Option<Addr>)
    ensures
        match low {
            None => r is None,
            Some(a) => if base@ + a <= u64::MAX {
                r == Some(crate::addr::spec_from_relative(base, a))
            } else {
                r is None
            },
        },
{
    match low {
        Some(a) => {
            if a <= u64::MAX - base.value() {
                Some(Addr::from_relative(base, a))
            } else {
                None
            }
        }
        None => None,
    }
}

/// An owned copy of expression bytecode, for handing a selected
/// location-list expression to the evaluator.
pub fn clone_expr_bytes(v: &Vec<u8>) -> (r: Vec<u8>)
    ensures
        r@ == v@,
{
    clone_bytes(v)
}

/// A handle to the loaded debug information of the current executable: the
/// DWARF context and an independently owned address-to-line index built from
/// the same section bytes.
pub struct CMDebugInfo {
    /// The DWARF context used for symbol queries.
    pub dwarf: DwarfHandle,
    /// The address-to-line index, consuming its own DWARF context.
    pub linedata: LineContext,
}

impl CMDebugInfo {
    /// Loads the `.debug_*` sections of the executable image in `data` and
    /// builds the DWARF context plus the line index on a second,
    /// independently owned context over the same bytes.
    pub fn build(data: &[u8]) -> (r: Result<CMDebugInfo, DebuggerError>)
        ensures
            r matches Err(e) ==> (e is Object || e is Dwarf),
    {
        let dwarf = match load_dwarf(data) {
            Ok(d) => d,
            Err(msg) => {
                return Err(DebuggerError::Object(msg));
            }
        };
        let dwarf2 = match load_dwarf(data) {
            Ok(d) => d,
            Err(msg) => {
                return Err(DebuggerError::Object(msg));
            }
        };
        let linedata = match line_context(dwarf2) {
            Ok(c) => c,
            Err(msg) => {
                return Err(DebuggerError::Dwarf(msg));
            }
        };
        Ok(CMDebugInfo { dwarf, linedata })
    }
}

/// Upper bound on compile units walked before a malformed unit list is
/// abandoned.
const UNIT_LIMIT: usize = 65536;

/// Upper bound on entries walked per unit before a malformed unit is
/// abandoned.
const DIE_LIMIT: usize = 1048576;

/// Folds a depth-annotated, depth-first list of symbols into a forest:
/// an entry of depth `d + 1` becomes a child of the nearest earlier entry
/// of depth `d`.
fn fold_flat_tree(flat: Vec<(i64, OwnedSymbol)>) -> Vec<OwnedSymbol> {
    let mut roots: Vec<OwnedSymbol> = Vec::new();
    let mut stack: Vec<(i64, OwnedSymbol)> = Vec::new();
    let mut idx: usize = 0;
    while idx < flat.len()
        decreases flat.len() - idx,
    {
        let depth = flat[idx].0;
        let sym = flat[idx].1.clone();
        while stack.len() > 0 && stack[stack.len() - 1].0 >= depth
            decreases stack.len(),
        {
            let done = match stack.pop() {
                Some(pair) => pair.1,
                None => {
                    break;
                }
            };
            attach(&mut roots, &mut stack, done);
        }
        stack.push((depth, sym));
        idx = idx + 1;
    }
    while stack.len() > 0
        decreases stack.len(),
    {
        let done = match stack.pop() {
            Some(pair) => pair.1,
            None => {
                break;
            }
        };
        attach(&mut roots, &mut stack, done);
    }
    roots
}

/// Hands a finished subtree to its parent: the symbol on top of the
/// stack, or the root list when the stack is empty.
fn attach(roots: &mut Vec<OwnedSymbol>, stack: &mut Vec<(i64, OwnedSymbol)>, done: OwnedSymbol)
    ensures
        old(stack)@.len() > 0 ==> final(stack)@.len() == old(stack)@.len(),
        old(stack)@.len() == 0 ==> final(stack)@.len() == 0,
{
    if stack.len() > 0 {
        let parent = match stack.pop() {
            Some(pair) => pair,
            None => {
                return;
            }
        };
        let depth = parent.0;
        let mut sym = parent.1;
        sym.children.push(done);
        stack.push((depth, sym));
    } else {
        roots.push(done);
    }
}

/// Builds the owned symbol tree: walks every compile unit of the DWARF
/// context depth first, allocates one symbol per entry with its name,
/// address range (made absolute against the module base), datatype
/// reference, byte size and raw location attributes, and mirrors the
/// entry nesting as the `children` relation.
pub fn build_symbol_tree(dwarf: &DwarfHandle, base: Addr) -> Result<Vec<OwnedSymbol>, DebuggerError> {
    let mut roots: Vec<OwnedSymbol> = Vec::new();
    let mut units = crate::dwarf_parse::dwarf_units(dwarf);
    let mut unit_fuel: usize = UNIT_LIMIT;
    while unit_fuel > 0
        decreases unit_fuel,
    {
        unit_fuel = unit_fuel - 1;
        let header = match crate::dwarf_parse::units_next(&mut units) {
            Ok(Some(h)) => h,
            Ok(None) => {
                break;
            }
            Err(msg) => {
                return Err(DebuggerError::Dwarf(msg));
            }
        };
        let unit = match crate::dwarf_parse::dwarf_unit(dwarf, header) {
            Ok(u) => u,
            Err(msg) => {
                return Err(DebuggerError::Dwarf(msg));
            }
        };
        let encoding = crate::dwarf_parse::unit_encoding(&unit);
        let mut cursor = crate::dwarf_parse::unit_entries(&unit);
        let mut flat: Vec<(i64, OwnedSymbol)> = Vec::new();
        let mut die_fuel: usize = DIE_LIMIT;
        while die_fuel > 0
            decreases die_fuel,
        {
            die_fuel = die_fuel - 1;
            let die = match crate::dwarf_parse::cursor_next_dfs(&mut cursor) {
                Ok(Some(d)) => d,
                Ok(None) => {
                    break;
                }
                Err(msg) => {
                    return Err(DebuggerError::Dwarf(msg));
                }
            };
            let kind = SymbolKind::from_tag(crate::dwarf_parse::die_tag(&die));
            let mut sym = OwnedSymbol::new(
                crate::dwarf_parse::die_offset(&die),
                kind,
                Vec::new(),
                encoding,
            );
            match crate::dwarf_parse::die_name(dwarf, &unit, &die) {
                Ok(name) => sym.set_name(name),
                Err(msg) => {
                    return Err(DebuggerError::Dwarf(msg));
                }
            }
            let low_rel = match crate::dwarf_parse::die_low_pc(dwarf, &unit, &die) {
                Ok(l) => l,
                Err(msg) => {
                    return Err(DebuggerError::Dwarf(msg));
                }
            };
            let low = derive_low_addr(low_rel, base);
            sym.set_low_addr(low);
            let high = crate::dwarf_parse::derive_high_addr(
                crate::dwarf_parse::die_high_pc(&die),
                low,
                base,
            )?;
            sym.set_high_addr(high);
            sym.set_datatype(crate::dwarf_parse::die_type_ref(&die));
            let byte_size = match crate::dwarf_parse::die_byte_size(&die) {
                Some(b) => {
                    if b <= (usize::MAX as u64) {
                        Some(b as usize)
                    } else {
                        None
                    }
                }
                None => None,
            };
            sym.set_byte_size(byte_size);
            match crate::dwarf_parse::die_location_attr(dwarf, &unit, &die, false) {
                Ok(loc) => sym.set_location(loc),
                Err(msg) => {
                    return Err(DebuggerError::Dwarf(msg));
                }
            }
            match crate::dwarf_parse::die_location_attr(dwarf, &unit, &die, true) {
                Ok(fb) => sym.set_frame_base(fb),
                Err(msg) => {
                    return Err(DebuggerError::Dwarf(msg));
                }
            }
            flat.push((crate::dwarf_parse::die_depth(&die), sym));
        }
        let mut unit_roots = fold_flat_tree(flat);
        roots.append(&mut unit_roots);
    }
    Ok(roots)
}

} // verus!
