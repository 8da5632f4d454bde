//! Shader variants: a kernel with a value for each of its feature flags.
//!
//! A kernel is described by its name, the ordered names of its boolean
//! feature flags and the workgroup size of its shader module. A variant
//! fixes a value for every flag. Its identity is the key under which the
//! runtime caches the compiled shader; its defines are what the kernel's
//! source generator is run with.

use vstd::prelude::*;
use vstd::string::StringExecFns;

verus! {

/// What defines a kernel: its name, the names of its boolean feature flags in
/// declaration order, and the workgroup size its shader module is written for.
#[derive(Debug)]
pub struct KernelDescriptor {
    pub name: String,
    pub flags: Vec<String>,
    pub workgroup_size: [u32; 3],
}

/// One permutation of a kernel: the descriptor and a value for every flag.
#[derive(Debug)]
pub struct KernelVariant {
    descriptor: KernelDescriptor,
    values: Vec<bool>,
}

/// The mathematical content of a [`KernelDescriptor`].
pub struct DescriptorView {
    pub name: Seq<char>,
    pub flags: Seq<Seq<char>>,
    pub workgroup_size: Seq<u32>,
}

/// The mathematical content of a [`KernelVariant`].
pub struct VariantView {
    pub name: Seq<char>,
    pub flags: Seq<Seq<char>>,
    pub values: Seq<bool>,
    pub workgroup_size: Seq<u32>,
}

impl DescriptorView {
    /// The variant of this kernel with the given flag values.
    pub open spec fn variant(self, values: Seq<bool>) -> VariantView {
        VariantView {
            name: self.name,
            flags: self.flags,
            values,
            workgroup_size: self.workgroup_size,
        }
    }
}

impl VariantView {
    /// Every declared flag has exactly one value, and the workgroup size has
    /// its three axes.
    pub open spec fn wf(self) -> bool {
        self.values.len() == self.flags.len() && self.workgroup_size.len() == 3
    }
}

/// The strings of a list, each by its characters.
pub open spec fn texts(list: Seq<String>) -> Seq<Seq<char>> {
    list.map_values(|text: String| text@)
}

impl View for KernelDescriptor {
    type V = DescriptorView;

    open spec fn view(&self) -> DescriptorView {
        DescriptorView {
            name: self.name@,
            flags: texts(self.flags@),
            workgroup_size: self.workgroup_size@,
        }
    }
}

impl View for KernelVariant {
    type V = VariantView;

    closed spec fn view(&self) -> VariantView {
        self.descriptor@.variant(self.values@)
    }
}

impl Clone for KernelDescriptor {
    fn clone(&self) -> (copy: KernelDescriptor)
        ensures
            copy@ == self@,
    {
        let name: String = self.name.clone();
        let flags: Vec<String> = self.flags.clone();
        KernelDescriptor { name, flags, workgroup_size: self.workgroup_size }
    }
}

impl Clone for KernelVariant {
    fn clone(&self) -> (copy: KernelVariant)
        ensures
            copy@ == self@,
    {
        proof {
            use_type_invariant(self);
        }
        let descriptor: KernelDescriptor = self.descriptor.clone();
        let values: Vec<bool> = self.values.clone();
        proof {
            assert(descriptor@.flags.len() == self.descriptor@.flags.len());
        }
        KernelVariant { descriptor, values }
    }
}

/// The character that stands for one flag value in a variant's identity.
pub open spec fn flag_char(set: bool) -> char {
    if set {
        '1'
    } else {
        '0'
    }
}

/// The identity of a variant: the kernel's name followed by one character
/// per flag, in declaration order.
pub open spec fn identity(variant: VariantView) -> Seq<char> {
    variant.name + variant.values.map_values(|set: bool| flag_char(set))
}

/// The upper-case form of a string, as `str::to_uppercase` gives it.
pub uninterp spec fn uppercase(text: Seq<char>) -> Seq<char>;

/// Calls `str::to_uppercase`, which maps each character to its Unicode
/// upper-case equivalent. The contract gives that result its name and says
/// nothing else of it.
#[verifier::external_body]
fn to_uppercase(text: &str) -> (upper: String)
    ensures
        upper@ == uppercase(text@),
{
    text.to_uppercase()
}

/// The defines that the first `count` flags of a variant contribute: the
/// upper-cased name of each flag that is set, in declaration order, each
/// name once.
pub open spec fn defines_of(variant: VariantView, count: int) -> Seq<Seq<char>>
    decreases count,
{
    if count <= 0 {
        Seq::empty()
    } else {
        let earlier = defines_of(variant, count - 1);
        let define = uppercase(variant.flags[count - 1]);
        if variant.values[count - 1] && !earlier.contains(define) {
            earlier.push(define)
        } else {
            earlier
        }
    }
}

/// The define set handed to a kernel's source generator. Each member is
/// defined as boolean true; a flag that is not set defines nothing.
pub open spec fn shader_defines(variant: VariantView) -> Seq<Seq<char>> {
    defines_of(variant, variant.flags.len() as int)
}

fn contains_text(list: &Vec<String>, text: &String) -> (found: bool)
    ensures
        found == texts(list@).contains(text@),
{
    let mut index: usize = 0;
    while index < list.len()
        invariant
            index <= list@.len(),
            forall|i: int| 0 <= i < index ==> texts(list@)[i] != text@,
        decreases list@.len() - index,
    {
        if list[index] == *text {
            assert(texts(list@)[index as int] == text@);
            return true;
        }
        index = index + 1;
    }
    false
}

impl KernelVariant {
    #[verifier::type_invariant]
    spec fn inv(self) -> bool {
        self.values@.len() == self.descriptor.flags@.len()
    }

    /// Fixes a value for each flag of a kernel. There is no variant when the
    /// number of values differs from the number of declared flags.
    pub fn task(descriptor: KernelDescriptor, values: Vec<bool>) -> (variant: Option<
        KernelVariant,
    >)
        ensures
            variant is Some <==> values@.len() == descriptor.flags@.len(),
            variant matches Some(v) ==> v@ == descriptor@.variant(values@) && v@.wf(),
    {
        if values.len() == descriptor.flags.len() {
            Some(KernelVariant { descriptor, values })
        } else {
            None
        }
    }

    /// The only variant of a kernel that declares no flag.
    pub fn without_flags(name: String, workgroup_size: [u32; 3]) -> (variant: KernelVariant)
        ensures
            variant@ == (VariantView {
                name: name@,
                flags: Seq::empty(),
                values: Seq::empty(),
                workgroup_size: workgroup_size@,
            }),
    {
        let descriptor = KernelDescriptor { name, flags: Vec::new(), workgroup_size };
        assert(descriptor@.flags =~= Seq::empty());
        KernelVariant { descriptor, values: Vec::new() }
    }

    /// The name of the kernel.
    pub fn name(&self) -> (name: &String)
        ensures
            name@ == self@.name,
    {
        &self.descriptor.name
    }

    /// The workgroup size of the kernel's shader module.
    pub fn workgroup_size(&self) -> (size: [u32; 3])
        ensures
            size@ == self@.workgroup_size,
    {
        self.descriptor.workgroup_size
    }

    /// The value of the flag at `index`, if the kernel declares that many flags.
    pub fn flag(&self, index: usize) -> (value: Option<bool>)
        ensures
            self@.wf(),
            value == if index < self@.values.len() {
                Some(self@.values[index as int])
            } else {
                None
            },
    {
        proof {
            use_type_invariant(self);
        }
        if index < self.values.len() {
            Some(self.values[index])
        } else {
            None
        }
    }

    /// The defines of the variant: the upper-cased names of the flags that are
    /// set, in declaration order and without repetition.
    pub fn shader_defs(&self) -> (defs: Vec<String>)
        ensures
            self@.wf(),
            texts(defs@) == shader_defines(self@),
            texts(defs@).no_duplicates(),
    {
        proof {
            use_type_invariant(self);
            lemma_defines_distinct(self@, self@.flags.len() as int);
        }
        let mut defs: Vec<String> = Vec::new();
        let count: usize = self.values.len();
        let mut index: usize = 0;
        while index < count
            invariant
                index <= count,
                count == self.values@.len(),
                count == self.descriptor.flags@.len(),
                texts(defs@) == defines_of(self@, index as int),
            decreases count - index,
        {
            if self.values[index] {
                let define: String = to_uppercase(self.descriptor.flags[index].as_str());
                if !contains_text(&defs, &define) {
                    defs.push(define);
                }
            }
            index = index + 1;
        }
        defs
    }

    /// The cache key of the variant: two variants of a kernel share it exactly
    /// when they agree on every flag.
    pub fn id(&self) -> (id: String)
        ensures
            self@.wf(),
            id@ == identity(self@),
    {
        proof {
            use_type_invariant(self);
        }
        let mut id: String = self.descriptor.name.clone();
        let count: usize = self.values.len();
        let mut index: usize = 0;
        while index < count
            invariant
                index <= count,
                count == self.values@.len(),
                id@ == self.descriptor.name@ + self.values@.take(index as int).map_values(
                    |set: bool| flag_char(set),
                ),
            decreases count - index,
        {
            if self.values[index] {
                id.append("1");
            } else {
                id.append("0");
            }
            index = index + 1;
            proof {
                reveal_strlit("1");
                reveal_strlit("0");
            }
        }
        id
    }
}

/// The identity is as long as the kernel's name and its flags together.
pub proof fn lemma_identity_len(variant: VariantView)
    ensures
        identity(variant).len() == variant.name.len() + variant.values.len(),
{
}

/// Two variants of a kernel with the same flag values have the same identity.
pub proof fn lemma_identity_deterministic(a: VariantView, b: VariantView)
    requires
        a.name == b.name,
        a.values == b.values,
    ensures
        identity(a) == identity(b),
{
}

/// Two variants of a kernel that differ in a flag have different identities.
pub proof fn lemma_identity_distinguishes(a: VariantView, b: VariantView, flag: int)
    requires
        a.name == b.name,
        a.values.len() == b.values.len(),
        0 <= flag < a.values.len(),
        a.values[flag] != b.values[flag],
    ensures
        identity(a) != identity(b),
{
    let at: int = a.name.len() + flag;
    assert(identity(a)[at] == flag_char(a.values[flag]));
}

/// Changing a single flag of a variant changes its identity.
pub proof fn lemma_identity_flag_flip(variant: VariantView, flag: int)
    requires
        0 <= flag < variant.values.len(),
    ensures
        identity(
            VariantView {
                values: variant.values.update(flag, !variant.values[flag]),
                ..variant
            },
        ) != identity(variant),
{
    let flipped = VariantView {
        values: variant.values.update(flag, !variant.values[flag]),
        ..variant
    };
    lemma_identity_distinguishes(flipped, variant, flag);
}

/// Among the variants of one kernel, the identity determines every flag.
pub proof fn lemma_identity_injective(a: VariantView, b: VariantView)
    requires
        a.name == b.name,
        a.values.len() == b.values.len(),
        identity(a) == identity(b),
    ensures
        a.values == b.values,
{
    assert forall|flag: int| 0 <= flag < a.values.len() implies a.values[flag]
        == b.values[flag] by {
        if a.values[flag] != b.values[flag] {
            lemma_identity_distinguishes(a, b, flag);
        }
    }
}

proof fn lemma_push_contains(list: Seq<Seq<char>>, last: Seq<char>, text: Seq<char>)
    ensures
        list.push(last).contains(text) <==> list.contains(text) || text == last,
{
    let longer = list.push(last);
    if list.contains(text) {
        let at = choose|i: int| 0 <= i < list.len() && list[i] == text;
        assert(longer[at] == text);
    }
    if text == last {
        assert(longer[list.len() as int] == text);
    }
}

/// A name is among the defines exactly when it is the upper-cased name of a
/// flag that is set.
pub proof fn lemma_defines_membership(variant: VariantView, count: int, define: Seq<char>)
    requires
        0 <= count <= variant.flags.len(),
    ensures
        defines_of(variant, count).contains(define) <==> exists|flag: int|
            0 <= flag < count && variant.values[flag] && #[trigger] uppercase(variant.flags[flag])
                == define,
    decreases count,
{
    if count > 0 {
        let earlier = defines_of(variant, count - 1);
        let last = uppercase(variant.flags[count - 1]);
        lemma_defines_membership(variant, count - 1, define);
        lemma_defines_membership(variant, count - 1, last);
        lemma_push_contains(earlier, last, define);
    }
}

/// No define occurs twice.
pub proof fn lemma_defines_distinct(variant: VariantView, count: int)
    ensures
        defines_of(variant, count).no_duplicates(),
    decreases count,
{
    if count > 0 {
        lemma_defines_distinct(variant, count - 1);
    }
}

} // verus!
