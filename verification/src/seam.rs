//! The engine's seam to the Metal driver.
//!
//! A backend that cannot be selected teaches nothing; one that is selected and
//! says exactly which verb it cannot serve is a working seam with a stated
//! hole. So each verb answers, and the ones that cannot serve refuse by name.
//!
//! Opening the device and reading a checkpoint are the caller's: the seam takes
//! what they gave.

use crate::strings;
use crate::strings::push_decimal;
use vstd::prelude::*;
use vstd::string::*;

verus! {

/// The facts a scheduler reads, stated from what the backend is.
#[derive(Debug, PartialEq, Eq)]
pub struct DeviceFacts {
    /// The driver ABI both sides speak.
    pub abi_version: u32,
    /// Which backend.
    pub backend: String,
    /// The pool and the host share physical memory.
    pub unified_memory: bool,
    /// Whether the backend has a native 8-bit float path.
    pub fp8_native: bool,
    /// Whether the backend has a native four-bit float mixture.
    pub native_mxfp4_moe: bool,
    /// Storage alignment in bytes.
    pub storage_alignment: u32,
    /// The widest storage tile; zero for none.
    pub storage_max_tile_bytes: u64,
    /// Which storage tilings are understood; zero for none.
    pub storage_tile_map_mask: u64,
    /// The paged pool's rows per page.
    pub page_size: u32,
}

/// These are this backend's facts.
pub open spec fn metal_facts(facts: DeviceFacts, abi_version: u32) -> bool {
    &&& facts.abi_version == abi_version
    &&& facts.backend@ == "metal"@
    &&& facts.unified_memory
    &&& !facts.fp8_native
    &&& !facts.native_mxfp4_moe
    &&& facts.storage_alignment == 256
    &&& facts.storage_max_tile_bytes == 0
    &&& facts.storage_tile_map_mask == 0
    &&& facts.page_size == 16
}

/// State the backend's facts.
fn state_facts(abi_version: u32) -> (facts: DeviceFacts)
    ensures
        metal_facts(facts, abi_version),
{
    DeviceFacts {
        abi_version,
        backend: "metal".to_owned(),
        unified_memory: true,
        fp8_native: false,
        native_mxfp4_moe: false,
        storage_alignment: 256,
        storage_max_tile_bytes: 0,
        storage_tile_map_mask: 0,
        page_size: 16,
    }
}

/// Why a verb was not served.
#[derive(Debug, PartialEq, Eq)]
pub struct Refusal {
    /// What the engine reports.
    pub text: String,
}

/// A handle another process could map the pool by.
#[derive(Clone, Copy, Debug, PartialEq, Eq, Structural)]
pub struct KvHandle {
    /// The handle.
    pub handle: u64,
}

/// A model to load.
#[derive(Debug, PartialEq, Eq)]
pub struct ModelLoadDesc {
    /// Where its checkpoint is.
    pub snapshot_dir: String,
}

/// The Metal driver, behind the seam's verbs.
#[derive(Debug)]
pub struct MetalDriver {
    device_facts: DeviceFacts,
}

/// The pool's hole, named once so every verb that shares it reads the same.
pub open spec fn unserved_pool() -> Seq<char> {
    "driver-metal-new: the KV pool is not wired to the seam yet. The executor above it is complete and device-tested (tests/device_text_fire.rs fires the whole llama_like text); what is missing is the buffers a fire binds, not the decisions it makes."@
}

/// The loader's hole.
pub open spec fn unserved_load() -> Seq<char> {
    "driver-metal-new: `load_model` is not wired to the seam yet. `loader/` compiles the plan and `metal::stage_plan_weights` stages it; what is missing is the call between them and the name map (`model::resolve::Store`) that answers a trace's weight names from it."@
}

/// The registry's hole, for one of its verbs.
pub open spec fn unserved_registry(verb: Seq<char>) -> Seq<char> {
    "driver-metal-new: `"@ + verb
        + "` is not wired to the seam's plan types yet. The registry itself is complete and device tested; what is missing is a model for `load_model` to have loaded."@
}

/// The refusal of another number of models than one.
pub open spec fn one_model_only(n: nat) -> Seq<char> {
    "driver-metal-new: this backend holds ONE model, and `load_model` was handed "@
        + strings::decimal(n)
}

/// The refusal of a snapshot whose configuration could not be read.
pub open spec fn no_checkpoint(dir: Seq<char>, why: Seq<char>) -> Seq<char> {
    "driver-metal-new: "@ + dir + "/config.json: "@ + why
}

/// The refusal of a frame posted to a driver that holds no model.
pub open spec fn launched_too_soon() -> Seq<char> {
    "driver-metal-new: `launch` before load_model: there is no pool for a frame to run in, and no model to run."@
}

/// A refusal that says `text`.
fn refuse(text: &str) -> (r: Refusal)
    ensures
        r.text@ == text@,
{
    Refusal { text: text.to_owned() }
}

impl MetalDriver {
    /// The facts the driver holds.
    pub closed spec fn facts(&self) -> DeviceFacts {
        self.device_facts
    }

    /// Put the seam in front of a device that was opened, or refuse with what
    /// opening it said. The configuration is not read: the facts are stated
    /// from what this backend is, because a configuration that disagreed with
    /// the hardware would simply be believed.
    pub fn create(abi_version: u32, opened: Result<(), String>) -> (driver: Result<
        (Self, DeviceFacts),
        Refusal,
    >)
        ensures
            match opened {
                Ok(_) => driver matches Ok((d, facts)) && metal_facts(d.facts(), abi_version)
                    && metal_facts(facts, abi_version),
                Err(why) => driver matches Err(r) && r.text@ == "metal context: "@ + why@,
            },
    {
        match opened {
            Err(why) => {
                let mut text = String::from_str("metal context: ");
                text.append(why.as_str());
                Err(Refusal { text })
            },
            Ok(_) => Ok(
                (
                    MetalDriver { device_facts: state_facts(abi_version) },
                    state_facts(abi_version),
                ),
            ),
        }
    }

    /// Which backend this is.
    pub fn kind(&self) -> (kind: &'static str)
        ensures
            kind@ == "metal"@,
    {
        "metal"
    }

    /// The device's stated facts.
    pub fn device_facts(&self) -> (facts: &DeviceFacts)
        ensures
            *facts == self.facts(),
    {
        &self.device_facts
    }

    /// No handle is exported: there is no cross-process sharing path.
    pub fn export_kv_handle(&self) -> (handle: Option<KvHandle>)
        ensures
            handle is None,
    {
        None
    }

    /// Load a model: which snapshot's configuration to read, or the refusal of
    /// another number of models than one.
    pub fn load_model(&mut self, descs: &[ModelLoadDesc]) -> (snapshot: Result<String, Refusal>)
        ensures
            final(self).facts() == old(self).facts(),
            snapshot is Ok <==> descs@.len() == 1,
            snapshot matches Ok(dir) ==> dir@ == descs@[0].snapshot_dir@,
            snapshot matches Err(r) ==> r.text@ == one_model_only(descs@.len()),
    {
        if descs.len() != 1 {
            let mut text = String::from_str(
                "driver-metal-new: this backend holds ONE model, and `load_model` was handed ",
            );
            push_decimal(&mut text, descs.len() as u64);
            return Err(Refusal { text });
        }
        Ok(descs[0].snapshot_dir.clone())
    }

    /// The snapshot's configuration was read, or was not. Either way the load
    /// is refused: for the checkpoint that is not there, or for the half of
    /// the loader that is not wired.
    pub fn load_checkpoint(&mut self, snapshot_dir: &str, config: Result<String, String>) -> (r:
        Refusal)
        ensures
            final(self).facts() == old(self).facts(),
            r.text@ == (match config {
                Err(why) => no_checkpoint(snapshot_dir@, why@),
                Ok(_) => unserved_load(),
            }),
    {
        match config {
            Err(why) => {
                let mut text = String::from_str("driver-metal-new: ");
                text.append(snapshot_dir);
                text.append("/config.json: ");
                text.append(why.as_str());
                Refusal { text }
            },
            Ok(_) => refuse(
                "driver-metal-new: `load_model` is not wired to the seam yet. `loader/` compiles the plan and `metal::stage_plan_weights` stages it; what is missing is the call between them and the name map (`model::resolve::Store`) that answers a trace's weight names from it.",
            ),
        }
    }

    /// The refusal of a registry verb.
    fn unregistered(&self, verb: &str) -> (r: Refusal)
        ensures
            r.text@ == unserved_registry(verb@),
    {
        let mut text = String::from_str("driver-metal-new: `");
        text.append(verb);
        text.append(
            "` is not wired to the seam's plan types yet. The registry itself is complete and device tested; what is missing is a model for `load_model` to have loaded.",
        );
        Refusal { text }
    }

    /// Refused: a program registered against no model cannot be honoured.
    pub fn register_program(&mut self) -> (id: Result<u64, Refusal>)
        ensures
            final(self).facts() == old(self).facts(),
            id matches Err(r) && r.text@ == unserved_registry("register_program"@),
    {
        Err(self.unregistered("register_program"))
    }

    /// Refused, as [`Self::register_program`].
    pub fn register_channel(&mut self) -> (id: Result<u64, Refusal>)
        ensures
            final(self).facts() == old(self).facts(),
            id matches Err(r) && r.text@ == unserved_registry("register_channel"@),
    {
        Err(self.unregistered("register_channel"))
    }

    /// Refused, as [`Self::register_program`].
    pub fn bind_instance(&mut self) -> (id: Result<u64, Refusal>)
        ensures
            final(self).facts() == old(self).facts(),
            id matches Err(r) && r.text@ == unserved_registry("bind_instance"@),
    {
        Err(self.unregistered("bind_instance"))
    }

    /// Refused: a frame posted before a model was loaded is drift, not
    /// admission.
    pub fn launch(&mut self) -> (outcome: Result<(), Refusal>)
        ensures
            final(self).facts() == old(self).facts(),
            outcome matches Err(r) && r.text@ == launched_too_soon(),
    {
        Err(
            refuse(
                "driver-metal-new: `launch` before load_model: there is no pool for a frame to run in, and no model to run.",
            ),
        )
    }

    /// Refused: media encode is unsupported on this backend.
    pub fn encode(&mut self) -> (outcome: Result<(), Refusal>)
        ensures
            final(self).facts() == old(self).facts(),
            outcome matches Err(r) && r.text@
                == "driver-metal-new: media encode is unsupported on this backend"@,
    {
        Err(refuse("driver-metal-new: media encode is unsupported on this backend"))
    }

    /// The refusal of a verb that needs the pool.
    fn poolless(&self) -> (r: Refusal)
        ensures
            r.text@ == unserved_pool(),
    {
        refuse(
            "driver-metal-new: the KV pool is not wired to the seam yet. The executor above it is complete and device-tested (tests/device_text_fire.rs fires the whole llama_like text); what is missing is the buffers a fire binds, not the decisions it makes.",
        )
    }

    /// Refused until the pool exists.
    pub fn copy_kv(&mut self) -> (outcome: Result<(), Refusal>)
        ensures
            final(self).facts() == old(self).facts(),
            outcome matches Err(r) && r.text@ == unserved_pool(),
    {
        Err(self.poolless())
    }

    /// Refused, as [`Self::copy_kv`].
    pub fn copy_state(&mut self) -> (outcome: Result<(), Refusal>)
        ensures
            final(self).facts() == old(self).facts(),
            outcome matches Err(r) && r.text@ == unserved_pool(),
    {
        Err(self.poolless())
    }

    /// Refused, as [`Self::copy_kv`].
    pub fn resize_pool(&mut self) -> (outcome: Result<(), Refusal>)
        ensures
            final(self).facts() == old(self).facts(),
            outcome matches Err(r) && r.text@ == unserved_pool(),
    {
        Err(self.poolless())
    }

    /// A close is idempotent: an id nothing holds is accepted.
    pub fn close_instance(&mut self, id: u64) -> (closed: Result<(), Refusal>)
        ensures
            final(self).facts() == old(self).facts(),
            closed is Ok,
    {
        Ok(())
    }

    /// As [`Self::close_instance`].
    pub fn close_channel(&mut self, id: u64) -> (closed: Result<(), Refusal>)
        ensures
            final(self).facts() == old(self).facts(),
            closed is Ok,
    {
        Ok(())
    }
}

/// `whole` has `part` in it.
pub open spec fn says(whole: Seq<char>, part: Seq<char>) -> bool {
    exists|i: int| 0 <= i <= whole.len() - part.len() && #[trigger] whole.subrange(
        i,
        i + part.len(),
    ) == part
}

/// A registry verb's refusal names the verb that could not be served.
pub proof fn law_a_registry_refusal_names_its_verb(verb: Seq<char>)
    ensures
        says(unserved_registry(verb), verb),
{
    let lead = "driver-metal-new: `"@;
    let whole = unserved_registry(verb);
    let i = lead.len() as int;
    assert(whole.subrange(i, i + verb.len()) =~= verb);
}

/// The facts are this backend's, whichever driver states them: a Metal device
/// shares its memory with the host, has no native 8-bit or four-bit float path,
/// stores nothing tiled, and pages its pool by sixteen rows.
pub proof fn law_the_facts_are_the_backends(facts: DeviceFacts, abi_version: u32)
    ensures
        metal_facts(facts, abi_version) <==> {
            &&& facts.backend@ == "metal"@
            &&& facts.abi_version == abi_version
            &&& facts.unified_memory && !(facts.fp8_native || facts.native_mxfp4_moe)
            &&& facts.storage_alignment == 16 * facts.page_size && facts.page_size == 16
            &&& facts.storage_max_tile_bytes == 0 && facts.storage_tile_map_mask == 0
        },
{
}

/// The refusals that speak of something name it: how many models there were,
/// and which checkpoint was not read and why.
pub proof fn law_a_load_refusal_names_what_it_was_handed(n: nat, dir: Seq<char>, why: Seq<char>)
    ensures
        strings::decimal(n).is_suffix_of(one_model_only(n)),
        says(no_checkpoint(dir, why), dir + "/config.json: "@),
        why.is_suffix_of(no_checkpoint(dir, why)),
{
    let counted = one_model_only(n);
    let count = strings::decimal(n);
    assert(count =~= counted.subrange((counted.len() - count.len()) as int, counted.len() as int));
    let whole = no_checkpoint(dir, why);
    let path = dir + "/config.json: "@;
    let i = "driver-metal-new: "@.len() as int;
    assert(whole.subrange(i, i + path.len()) =~= path);
    assert(why =~= whole.subrange((whole.len() - why.len()) as int, whole.len() as int));
}

/// A refusal says which crate refuses, and what cannot be served: the pool, the
/// load, or the launch that came before one.
pub proof fn law_a_refusal_says_what_is_not_served()
    ensures
        "driver-metal-new: "@.is_prefix_of(unserved_pool()),
        "driver-metal-new: "@.is_prefix_of(unserved_load()),
        "driver-metal-new: "@.is_prefix_of(launched_too_soon()),
        says(unserved_pool(), "the KV pool"@),
        says(unserved_load(), "`load_model` is not wired"@),
        says(launched_too_soon(), "`launch` before load_model"@),
{
    reveal_strlit("driver-metal-new: ");
    reveal_strlit("the KV pool");
    reveal_strlit("`load_model` is not wired");
    reveal_strlit("`launch` before load_model");
    reveal_strlit(
        "driver-metal-new: the KV pool is not wired to the seam yet. The executor above it is complete and device-tested (tests/device_text_fire.rs fires the whole llama_like text); what is missing is the buffers a fire binds, not the decisions it makes.",
    );
    reveal_strlit(
        "driver-metal-new: `load_model` is not wired to the seam yet. `loader/` compiles the plan and `metal::stage_plan_weights` stages it; what is missing is the call between them and the name map (`model::resolve::Store`) that answers a trace's weight names from it.",
    );
    reveal_strlit(
        "driver-metal-new: `launch` before load_model: there is no pool for a frame to run in, and no model to run.",
    );
    let lead = "driver-metal-new: "@;
    let n = lead.len() as int;
    assert(lead =~= unserved_pool().subrange(0, n));
    assert(lead =~= unserved_load().subrange(0, n));
    assert(lead =~= launched_too_soon().subrange(0, n));
    assert(unserved_pool().subrange(n, n + "the KV pool"@.len()) =~= "the KV pool"@);
    assert(unserved_load().subrange(n, n + "`load_model` is not wired"@.len())
        =~= "`load_model` is not wired"@);
    assert(launched_too_soon().subrange(n, n + "`launch` before load_model"@.len())
        =~= "`launch` before load_model"@);
}

} // verus!
