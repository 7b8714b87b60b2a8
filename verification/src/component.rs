use vstd::prelude::*;

use crate::peripheral::{PeripheralID, PeripheralType};

verus! {

/// The class of a CoreSight component (ADIv5.2, table D1-2), as the CIDR1
/// register's class field encodes it.
#[derive(Debug, PartialEq, Eq, Clone, Copy, Structural)]
pub enum RawComponent {
    GenericVerificationComponent,
    RomTable,
    CoreSightComponent,
    PeripheralTestBlock,
    GenericIPComponent,
    CoreLinkOrPrimeCellOrSystemComponent,
}

/// The component class with the given number, if the number designates one.
pub open spec fn spec_raw_component(n: u32) -> Option<RawComponent> {
    if n == 0 {
        Some(RawComponent::GenericVerificationComponent)
    } else if n == 1 {
        Some(RawComponent::RomTable)
    } else if n == 9 {
        Some(RawComponent::CoreSightComponent)
    } else if n == 0xB {
        Some(RawComponent::PeripheralTestBlock)
    } else if n == 0xE {
        Some(RawComponent::GenericIPComponent)
    } else if n == 0xF {
        Some(RawComponent::CoreLinkOrPrimeCellOrSystemComponent)
    } else {
        None
    }
}

impl RawComponent {
    /// Returns the component class with the given number, if there is one.
    pub fn from_u32(n: u32) -> (r: Option<RawComponent>)
        ensures
            r == spec_raw_component(n),
    {
        match n {
            0 => Some(RawComponent::GenericVerificationComponent),
            1 => Some(RawComponent::RomTable),
            9 => Some(RawComponent::CoreSightComponent),
            0xB => Some(RawComponent::PeripheralTestBlock),
            0xE => Some(RawComponent::GenericIPComponent),
            0xF => Some(RawComponent::CoreLinkOrPrimeCellOrSystemComponent),
            _ => None,
        }
    }
}

/// Identification of a CoreSight component.
#[derive(Debug, PartialEq, Eq, Clone, Copy)]
pub struct ComponentId {
    /// The base address of the component's 4 KiB block.
    pub component_address: u64,
    /// The component class.
    pub class: RawComponent,
    /// The component's peripheral ID.
    pub peripheral_id: PeripheralID,
}

impl ComponentId {
    /// Returns the address of the component.
    pub fn component_address(&self) -> (r: u64)
        ensures
            r == self.component_address,
    {
        self.component_address
    }

    /// Returns the peripheral ID of the component.
    pub fn peripheral_id(&self) -> (r: &PeripheralID)
        ensures
            *r == self.peripheral_id,
    {
        &self.peripheral_id
    }
}

/// A completely parsed ROM table entry.
#[derive(Debug, PartialEq, Eq)]
pub struct RomTableEntry {
    /// The power domain ID of the component behind the entry.
    pub power_domain_id: u8,
    /// Whether the power domain ID is valid.
    pub power_domain_valid: bool,
    /// Set when the ROM table has the 32-bit format.
    pub format: bool,
    /// The component that the entry points to.
    pub component: Component,
}

/// A parsed ROM table: all its entries, those of nested ROM tables included,
/// flattened depth-first. Each present entry of the table comes in table
/// order, and right after an entry whose component is a ROM table come the
/// (flattened) entries of that nested table.
#[derive(Debug, PartialEq, Eq)]
pub struct RomTable {
    pub entries: Vec<RomTableEntry>,
}

/// A CoreSight component, by class (ADIv5.2, table D1-2).
#[derive(Debug, PartialEq, Eq)]
pub enum Component {
    GenericVerificationComponent(ComponentId),
    Class1RomTable(ComponentId, RomTable),
    Class9RomTable(ComponentId),
    PeripheralTestBlock(ComponentId),
    GenericIPComponent(ComponentId),
    CoreLinkOrPrimeCellOrSystemComponent(ComponentId),
}

/// The value of a ROM table entry, with the component behind it.
pub struct TableEntryModel {
    pub power_domain_id: u8,
    pub power_domain_valid: bool,
    pub format: bool,
    pub component: ComponentModel,
}

/// The value of a component: its class, its identification and, for a ROM
/// table, the table's entries in order.
pub enum ComponentModel {
    GenericVerificationComponent(ComponentId),
    Class1RomTable(ComponentId, Seq<TableEntryModel>),
    Class9RomTable(ComponentId),
    PeripheralTestBlock(ComponentId),
    GenericIPComponent(ComponentId),
    CoreLinkOrPrimeCellOrSystemComponent(ComponentId),
}

/// The values of a list of ROM table entries.
pub open spec fn entries_model(es: Seq<RomTableEntry>) -> Seq<TableEntryModel>
    decreases es,
{
    if es.len() == 0 {
        Seq::empty()
    } else {
        seq![
            TableEntryModel {
                power_domain_id: es[0].power_domain_id,
                power_domain_valid: es[0].power_domain_valid,
                format: es[0].format,
                component: component_model(es[0].component),
            },
        ] + entries_model(es.subrange(1, es.len() as int))
    }
}

/// The value of a component.
pub open spec fn component_model(c: Component) -> ComponentModel
    decreases c,
{
    match c {
        Component::GenericVerificationComponent(id) => ComponentModel::GenericVerificationComponent(
            id,
        ),
        Component::Class1RomTable(id, table) => ComponentModel::Class1RomTable(
            id,
            entries_model(table.entries@),
        ),
        Component::Class9RomTable(id) => ComponentModel::Class9RomTable(id),
        Component::PeripheralTestBlock(id) => ComponentModel::PeripheralTestBlock(id),
        Component::GenericIPComponent(id) => ComponentModel::GenericIPComponent(id),
        Component::CoreLinkOrPrimeCellOrSystemComponent(id) => {
            ComponentModel::CoreLinkOrPrimeCellOrSystemComponent(id)
        },
    }
}

impl View for Component {
    type V = ComponentModel;

    open spec fn view(&self) -> ComponentModel {
        component_model(*self)
    }
}

impl View for RomTable {
    type V = Seq<TableEntryModel>;

    open spec fn view(&self) -> Seq<TableEntryModel> {
        entries_model(self.entries@)
    }
}

/// The components in the order of a depth-first walk: the component itself
/// then, for a ROM table, the walk of each of its entries' components in the
/// order of the entries. As a ROM table's entries also hold those of the
/// tables below it, a component below a nested table comes once through that
/// table and once more through each enclosing table's own entries.
pub open spec fn preorder(c: Component) -> Seq<Component>
    decreases c,
{
    seq![c] + match c {
        Component::Class1RomTable(_, table) => preorder_entries(table.entries@),
        _ => Seq::empty(),
    }
}

/// The depth-first walks of the entries' components, one after the other.
pub open spec fn preorder_entries(es: Seq<RomTableEntry>) -> Seq<Component>
    decreases es,
{
    if es.len() == 0 {
        Seq::empty()
    } else {
        preorder(es[0].component) + preorder_entries(es.subrange(1, es.len() as int))
    }
}

/// The depth-first walks of a list of components, one after the other.
pub open spec fn preorder_list(cs: Seq<&Component>) -> Seq<Component>
    decreases cs.len(),
{
    if cs.len() == 0 {
        Seq::empty()
    } else {
        preorder(*cs[0]) + preorder_list(cs.subrange(1, cs.len() as int))
    }
}

/// The first component of `s` whose peripheral is of type `t`.
pub open spec fn first_of_type(s: Seq<Component>, t: PeripheralType) -> Option<Component>
    decreases s.len(),
{
    if s.len() == 0 {
        None
    } else if s[0].spec_id().peripheral_id.spec_is_of_type(t) {
        Some(s[0])
    } else {
        first_of_type(s.subrange(1, s.len() as int), t)
    }
}

impl Component {
    /// The identification of the component, whatever its class.
    pub open spec fn spec_id(self) -> ComponentId {
        match self {
            Component::GenericVerificationComponent(id) => id,
            Component::Class1RomTable(id, _) => id,
            Component::Class9RomTable(id) => id,
            Component::PeripheralTestBlock(id) => id,
            Component::GenericIPComponent(id) => id,
            Component::CoreLinkOrPrimeCellOrSystemComponent(id) => id,
        }
    }

    /// Returns the identification of the component.
    pub fn id(&self) -> (r: &ComponentId)
        ensures
            *r == self.spec_id(),
    {
        match self {
            Component::GenericVerificationComponent(component_id) => component_id,
            Component::Class1RomTable(component_id, ..) => component_id,
            Component::Class9RomTable(component_id) => component_id,
            Component::PeripheralTestBlock(component_id) => component_id,
            Component::GenericIPComponent(component_id) => component_id,
            Component::CoreLinkOrPrimeCellOrSystemComponent(component_id) => component_id,
        }
    }

    /// The address of the register at `offset` of this component: the low 32
    /// bits of the component's address, plus the offset.
    pub open spec fn spec_register_address(self, offset: u32) -> int {
        (self.spec_id().component_address as u32) + offset
    }

    /// Returns the address of the register at `offset` of this component, the
    /// address that reading or writing that register accesses.
    pub fn register_address(&self, offset: u32) -> (r: u32)
        requires
            self.spec_register_address(offset) <= u32::MAX,
        ensures
            r == self.spec_register_address(offset),
    {
        self.id().component_address as u32 + offset
    }

    /// Returns an iterator over this component and all components below it.
    pub fn iter(&self) -> (r: ComponentIter<'_>)
        ensures
            r.remaining() == preorder(*self),
    {
        let mut components: Vec<&Component> = Vec::new();
        components.push(self);
        let ghost cs = components@;
        let r = ComponentIter::new(components);
        proof {
            assert(cs.subrange(1, 1) =~= Seq::<&Component>::empty());
            assert(preorder_list(cs.subrange(1, 1)) =~= Seq::<Component>::empty());
            assert(preorder(*self) + Seq::<Component>::empty() =~= preorder(*self));
        }
        r
    }

    /// Finds the first component, in the order of `iter`, whose peripheral is
    /// of the given type.
    pub fn find_component(&self, peripheral_type: PeripheralType) -> (r: Option<&Component>)
        ensures
            match r {
                Some(c) => first_of_type(preorder(*self), peripheral_type) == Some(*c),
                None => first_of_type(preorder(*self), peripheral_type) is None,
            },
    {
        let mut it = self.iter();
        loop
            invariant
                first_of_type(preorder(*self), peripheral_type)
                    == first_of_type(it.remaining(), peripheral_type),
            decreases it.remaining().len(),
        {
            let ghost before = it.remaining();
            match it.next() {
                Some(component) => {
                    if component.id().peripheral_id.is_of_type(peripheral_type) {
                        return Some(component);
                    }
                    assert(before.subrange(1, before.len() as int) =~= before.drop_first());
                },
                None => {
                    return None;
                },
            }
        }
    }
}

/// A depth-first iterator over CoreSight components: each component comes
/// before the walk of the components of its ROM table's entries, which is
/// recursive. As a ROM table's entries also hold the entries of the tables
/// below it, the components below a nested table come once through that
/// table and again through the enclosing table's entries.
pub struct ComponentIter<'a> {
    /// The components of this iterator level.
    components: Vec<&'a Component>,
    /// The index of the component of this level that comes next.
    current: usize,
    /// The iterator over the components below the last one returned; it is
    /// exhausted before this level goes on.
    children: Option<Box<ComponentIter<'a>>>,
}

impl<'a> ComponentIter<'a> {
    /// The components that the iterator has still to return, in order.
    pub closed spec fn remaining(self) -> Seq<Component>
        decreases self,
    {
        let below = match self.children {
            Some(children) => children.remaining(),
            None => Seq::empty(),
        };
        below + self.level_remaining()
    }

    /// The components that this level has still to return, each followed by
    /// the walk of the components below it.
    closed spec fn level_remaining(self) -> Seq<Component> {
        if self.current <= self.components.len() {
            preorder_list(
                self.components@.subrange(self.current as int, self.components.len() as int),
            )
        } else {
            Seq::empty()
        }
    }

    /// Creates an iterator over the given components and all components below them.
    pub fn new(components: Vec<&'a Component>) -> (r: Self)
        ensures
            r.remaining() == preorder_list(components@),
    {
        let r = Self { components, current: 0, children: None };
        proof {
            assert(r.components@.subrange(0, r.components.len() as int) =~= components@);
            assert(Seq::<Component>::empty() + r.level_remaining() =~= r.level_remaining());
        }
        r
    }

    /// Returns the next component of the depth-first walk, if any is left.
    pub fn next(&mut self) -> (r: Option<&'a Component>)
        ensures
            old(self).remaining().len() == 0 ==> r is None && final(self).remaining()
                == old(self).remaining(),
            old(self).remaining().len() > 0 ==> (r matches Some(c) && *c == old(
                self,
            ).remaining()[0] && final(self).remaining() == old(self).remaining().drop_first()),
        decreases *old(self),
    {
        let ghost start = self.remaining();
        let ghost rest = self.level_remaining();
        if let Some(mut children) = self.children.take() {
            let ghost below = children.remaining();
            assert(start == below + rest);
            match children.next() {
                Some(child) => {
                    self.children = Some(children);
                    proof {
                        assert(start.drop_first() =~= below.drop_first() + rest);
                    }
                    return Some(child);
                },
                None => {
                    assert(start =~= rest);
                },
            }
        }
        assert(self.remaining() == start);
        if self.current < self.components.len() {
            let component: &'a Component = self.components[self.current];
            let ghost cs = self.components@;
            let ghost cur = self.current as int;
            let ghost n = cs.len() as int;
            proof {
                assert(cs.subrange(cur, n)[0] == cs[cur]);
                assert(cs.subrange(cur, n).subrange(1, n - cur) =~= cs.subrange(cur + 1, n));
            }
            let children = match component {
                Component::Class1RomTable(_, table) => {
                    let refs = components_of_entries(table);
                    proof {
                        lemma_preorder_list_of_entries(refs@, table.entries@);
                    }
                    Some(Box::new(ComponentIter::new(refs)))
                },
                _ => None,
            };
            self.children = children;
            self.current = self.current + 1;
            proof {
                let below = if self.children is Some {
                    self.children->Some_0.remaining()
                } else {
                    Seq::<Component>::empty()
                };
                assert(below + Seq::<Component>::empty() =~= below);
                assert(start.drop_first() =~= below + preorder_list(cs.subrange(cur + 1, n)));
            }
            return Some(component);
        }
        proof {
            if self.current == self.components.len() {
                assert(self.components@.subrange(
                    self.current as int,
                    self.components.len() as int,
                ) =~= Seq::<&Component>::empty());
            }
        }
        None
    }
}

/// The components of a ROM table's entries, in the order of the entries.
fn components_of_entries<'a>(table: &'a RomTable) -> (r: Vec<&'a Component>)
    ensures
        r@.len() == table.entries@.len(),
        forall|i: int| 0 <= i < r@.len() ==> *r@[i] == table.entries@[i].component,
{
    let mut r: Vec<&'a Component> = Vec::new();
    let mut i: usize = 0;
    while i < table.entries.len()
        invariant
            i <= table.entries@.len(),
            r@.len() == i,
            forall|j: int| 0 <= j < i ==> *r@[j] == table.entries@[j].component,
        decreases table.entries@.len() - i,
    {
        r.push(&table.entries[i].component);
        i = i + 1;
    }
    r
}

/// Walking references to the entries' components gives the walk of the entries.
proof fn lemma_preorder_list_of_entries(refs: Seq<&Component>, es: Seq<RomTableEntry>)
    requires
        refs.len() == es.len(),
        forall|i: int| 0 <= i < refs.len() ==> *refs[i] == es[i].component,
    ensures
        preorder_list(refs) == preorder_entries(es),
    decreases es.len(),
{
    if es.len() > 0 {
        lemma_preorder_list_of_entries(
            refs.subrange(1, refs.len() as int),
            es.subrange(1, es.len() as int),
        );
    }
}

/// Appending an entry appends its value.
pub proof fn lemma_entries_model_push(es: Seq<RomTableEntry>, e: RomTableEntry)
    ensures
        entries_model(es.push(e)) == entries_model(es) + seq![
            TableEntryModel {
                power_domain_id: e.power_domain_id,
                power_domain_valid: e.power_domain_valid,
                format: e.format,
                component: component_model(e.component),
            },
        ],
    decreases es.len(),
{
    let pushed = es.push(e);
    assert(pushed[0] == if es.len() == 0 {
        e
    } else {
        es[0]
    });
    if es.len() == 0 {
        assert(pushed.subrange(1, pushed.len() as int) =~= Seq::<RomTableEntry>::empty());
        assert(entries_model(Seq::<RomTableEntry>::empty()) =~= Seq::<TableEntryModel>::empty());
        assert(entries_model(es) =~= Seq::<TableEntryModel>::empty());
    } else {
        assert(pushed.subrange(1, pushed.len() as int) =~= es.subrange(1, es.len() as int).push(e));
        lemma_entries_model_push(es.subrange(1, es.len() as int), e);
    }
}

/// The value of two lists of entries, one after the other, is the values of
/// each, one after the other.
pub proof fn lemma_entries_model_concat(a: Seq<RomTableEntry>, b: Seq<RomTableEntry>)
    ensures
        entries_model(a + b) == entries_model(a) + entries_model(b),
    decreases a.len(),
{
    if a.len() == 0 {
        assert(a + b =~= b);
        assert(entries_model(a) =~= Seq::<TableEntryModel>::empty());
        assert(entries_model(a) + entries_model(b) =~= entries_model(b));
    } else {
        let ab = a + b;
        assert(ab[0] == a[0]);
        assert(ab.subrange(1, ab.len() as int) =~= a.subrange(1, a.len() as int) + b);
        lemma_entries_model_concat(a.subrange(1, a.len() as int), b);
    }
}

/// Copies a list of entries, with the components behind them and the
/// entries of their tables.
pub(crate) fn duplicate_entries(es: &Vec<RomTableEntry>) -> (r: Vec<RomTableEntry>)
    ensures
        entries_model(r@) == entries_model(es@),
    decreases es,
{
    let mut r: Vec<RomTableEntry> = Vec::new();
    let mut i: usize = 0;
    while i < es.len()
        invariant
            i <= es@.len(),
            entries_model(r@) == entries_model(es@.subrange(0, i as int)),
        decreases es@.len() - i,
    {
        let e = &es[i];
        let component = match &e.component {
            Component::GenericVerificationComponent(id) => Component::GenericVerificationComponent(
                *id,
            ),
            Component::Class1RomTable(id, table) => {
                assert(decreases_to!(*es => table.entries));
                Component::Class1RomTable(*id, RomTable { entries: duplicate_entries(&table.entries) })
            },
            Component::Class9RomTable(id) => Component::Class9RomTable(*id),
            Component::PeripheralTestBlock(id) => Component::PeripheralTestBlock(*id),
            Component::GenericIPComponent(id) => Component::GenericIPComponent(*id),
            Component::CoreLinkOrPrimeCellOrSystemComponent(id) => {
                Component::CoreLinkOrPrimeCellOrSystemComponent(*id)
            },
        };
        let copy = RomTableEntry {
            power_domain_id: e.power_domain_id,
            power_domain_valid: e.power_domain_valid,
            format: e.format,
            component,
        };
        let ghost before = r@;
        r.push(copy);
        proof {
            lemma_entries_model_push(before, copy);
            lemma_entries_model_push(es@.subrange(0, i as int), *e);
            assert(es@.subrange(0, i as int).push(*e) =~= es@.subrange(0, i as int + 1));
        }
        i = i + 1;
    }
    assert(es@.subrange(0, es@.len() as int) =~= es@);
    r
}

} // verus!
