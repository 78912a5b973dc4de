//! The kernel symbols the executor has arms for.

use crate::cuda::action::Entry;
use crate::strings::str_eq;
use vstd::prelude::*;

verus! {

/// The symbol a trace names an entry by.
pub open spec fn symbol_of(e: Entry) -> Seq<char> {
    match e {
        Entry::LayoutEmbedBf16 => "layout::embed_bf16"@,
        Entry::RopeStandardTable => "rope::rope_standard_table"@,
        Entry::NormRmsnormBf16 => "norm::rmsnorm_bf16"@,
        Entry::GemmActXW => "gemm::act_x_w"@,
        Entry::MlpChunkedSwigluBf16 => "mlp::chunked_swiglu_bf16"@,
        Entry::AttnQkvDecodeQkNormRopeWriteKvBf16 => "attn::qkv_decode_qk_norm_rope_write_kv_bf16"@,
        Entry::AttnDispatchFlashinferDecode => "attn::dispatch_attention_flashinfer_decode"@,
        Entry::AttnSplitQkvBf16 => "attn::split_qkv_bf16"@,
        Entry::RopeQkRmsnormRopeBf16 => "rope::qk_rmsnorm_rope_bf16"@,
        Entry::AttnWriteKvToPages => "attn::write_kv_to_pages"@,
        Entry::AttnDequantKvCacheLayerToBf16Active =>
            "attn::dequant_kv_cache_layer_to_bf16_active"@,
        Entry::AttnDispatchFlashinferPrefillBf16 =>
            "attn::dispatch_attention_flashinfer_prefill_bf16"@,
        Entry::RopeRopeBf16 => "rope::rope_bf16"@,
        Entry::NormResidualAddBf16 => "norm::residual_add_bf16"@,
        Entry::NormAddBiasBf16 => "norm::add_bias_bf16"@,
        Entry::NormRmsnormGemmaBf16 => "norm::rmsnorm_gemma_bf16"@,
        Entry::RopeRopePartialBf16 => "rope::rope_partial_bf16"@,
        Entry::LayoutSplitQGateBf16 => "layout::split_q_gate_bf16"@,
        Entry::MlpSigmoidGateInplaceBf16 => "mlp::sigmoid_gate_inplace_bf16"@,
        Entry::SsmCausalConv1dUpdateBatchedBf16 => "ssm::causal_conv1d_update_batched_bf16"@,
        Entry::SsmCausalConv1dPrefillBatchedBf16 => "ssm::causal_conv1d_prefill_batched_bf16"@,
        Entry::SsmQwenGdnPostConvPrepBf16 => "ssm::qwen_gdn_post_conv_prep_bf16"@,
        Entry::SsmRecurrentGatedDeltaStepBatchedStateBf16 =>
            "ssm::recurrent_gated_delta_step_batched_state_bf16"@,
        Entry::SsmChunkGatedDeltaPrefillBatched => "ssm::chunk_gated_delta_prefill_batched"@,
        Entry::SsmChunkGatedDeltaPrefillBatchedStateBf16 =>
            "ssm::chunk_gated_delta_prefill_batched_state_bf16"@,
        Entry::NormRmsnormGatedFp32InBf16 => "norm::rmsnorm_gated_fp32_in_bf16"@,
        Entry::NormScalarMulBf16 => "norm::scalar_mul_bf16"@,
        Entry::MlpGegluTanhBf16 => "mlp::geglu_tanh_bf16"@,
        Entry::AttnLogitSoftcapBf16 => "attn::logit_softcap_bf16"@,
        Entry::AttnQkvPackedQkNormRopeVnormWriteKvBf16 =>
            "attn::qkv_packed_qk_norm_rope_vnorm_write_kv_bf16"@,
        Entry::RopeQkRmsnormRopeBf16Rounded => "rope::qk_rmsnorm_rope_bf16_rounded"@,
        Entry::AttnFlashinferPrefill => "attn::attention_flashinfer_prefill"@,
        Entry::AttnNaivePaged => "attn::attention_naive_paged"@,
        Entry::LayoutTransposeBf16NldToLnd => "layout::transpose_bf16_nld_to_lnd"@,
        Entry::NormRmsnormResidualAddScaleRmsnormBf16 =>
            "norm::rmsnorm_residual_add_scale_rmsnorm_bf16"@,
        Entry::NormRmsnormResidualAddBf16 => "norm::rmsnorm_residual_add_bf16"@,
        Entry::MlpChunkedGegluTanhBf16 => "mlp::chunked_geglu_tanh_bf16"@,
        Entry::NormRmsnormNoScaleBf16 => "norm::rmsnorm_no_scale_bf16"@,
    }
}

/// The entry a symbol names, when one does.
pub open spec fn entry_named(kernel: Seq<char>) -> Option<Entry> {
    if exists|e: Entry| #[trigger] symbol_of(e) == kernel {
        Some(choose|e: Entry| #[trigger] symbol_of(e) == kernel)
    } else {
        None
    }
}

/// A number that tells the symbols apart: their length, their first character
/// and their last.
spec fn symbol_key(s: Seq<char>) -> int {
    s.len() as int * 0x1_0000 + s[0] as int * 0x100 + s[s.len() - 1] as int
}

/// [`symbol_key`] of each entry's symbol.
spec fn entry_key(e: Entry) -> int {
    match e {
        Entry::LayoutEmbedBf16 => 18 * 0x1_0000 + 'l' as int * 0x100 + '6' as int,
        Entry::RopeStandardTable => 25 * 0x1_0000 + 'r' as int * 0x100 + 'e' as int,
        Entry::NormRmsnormBf16 => 18 * 0x1_0000 + 'n' as int * 0x100 + '6' as int,
        Entry::GemmActXW => 13 * 0x1_0000 + 'g' as int * 0x100 + 'w' as int,
        Entry::MlpChunkedSwigluBf16 => 24 * 0x1_0000 + 'm' as int * 0x100 + '6' as int,
        Entry::AttnQkvDecodeQkNormRopeWriteKvBf16 => 43 * 0x1_0000 + 'a' as int * 0x100 + '6' as int,
        Entry::AttnDispatchFlashinferDecode => 42 * 0x1_0000 + 'a' as int * 0x100 + 'e' as int,
        Entry::AttnSplitQkvBf16 => 20 * 0x1_0000 + 'a' as int * 0x100 + '6' as int,
        Entry::RopeQkRmsnormRopeBf16 => 26 * 0x1_0000 + 'r' as int * 0x100 + '6' as int,
        Entry::AttnWriteKvToPages => 23 * 0x1_0000 + 'a' as int * 0x100 + 's' as int,
        Entry::AttnDequantKvCacheLayerToBf16Active => 43 * 0x1_0000 + 'a' as int * 0x100 + 'e' as int,
        Entry::AttnDispatchFlashinferPrefillBf16 => 48 * 0x1_0000 + 'a' as int * 0x100 + '6' as int,
        Entry::RopeRopeBf16 => 15 * 0x1_0000 + 'r' as int * 0x100 + '6' as int,
        Entry::NormResidualAddBf16 => 23 * 0x1_0000 + 'n' as int * 0x100 + '6' as int,
        Entry::NormAddBiasBf16 => 19 * 0x1_0000 + 'n' as int * 0x100 + '6' as int,
        Entry::NormRmsnormGemmaBf16 => 24 * 0x1_0000 + 'n' as int * 0x100 + '6' as int,
        Entry::RopeRopePartialBf16 => 23 * 0x1_0000 + 'r' as int * 0x100 + '6' as int,
        Entry::LayoutSplitQGateBf16 => 25 * 0x1_0000 + 'l' as int * 0x100 + '6' as int,
        Entry::MlpSigmoidGateInplaceBf16 => 30 * 0x1_0000 + 'm' as int * 0x100 + '6' as int,
        Entry::SsmCausalConv1dUpdateBatchedBf16 => 38 * 0x1_0000 + 's' as int * 0x100 + '6' as int,
        Entry::SsmCausalConv1dPrefillBatchedBf16 => 39 * 0x1_0000 + 's' as int * 0x100 + '6' as int,
        Entry::SsmQwenGdnPostConvPrepBf16 => 33 * 0x1_0000 + 's' as int * 0x100 + '6' as int,
        Entry::SsmRecurrentGatedDeltaStepBatchedStateBf16 => 50 * 0x1_0000 + 's' as int * 0x100 + '6' as int,
        Entry::SsmChunkGatedDeltaPrefillBatched => 38 * 0x1_0000 + 's' as int * 0x100 + 'd' as int,
        Entry::SsmChunkGatedDeltaPrefillBatchedStateBf16 => 49 * 0x1_0000 + 's' as int * 0x100 + '6' as int,
        Entry::NormRmsnormGatedFp32InBf16 => 32 * 0x1_0000 + 'n' as int * 0x100 + '6' as int,
        Entry::NormScalarMulBf16 => 21 * 0x1_0000 + 'n' as int * 0x100 + '6' as int,
        Entry::MlpGegluTanhBf16 => 20 * 0x1_0000 + 'm' as int * 0x100 + '6' as int,
        Entry::AttnLogitSoftcapBf16 => 24 * 0x1_0000 + 'a' as int * 0x100 + '6' as int,
        Entry::AttnQkvPackedQkNormRopeVnormWriteKvBf16 => 49 * 0x1_0000 + 'a' as int * 0x100 + '6' as int,
        Entry::RopeQkRmsnormRopeBf16Rounded => 34 * 0x1_0000 + 'r' as int * 0x100 + 'd' as int,
        Entry::AttnFlashinferPrefill => 34 * 0x1_0000 + 'a' as int * 0x100 + 'l' as int,
        Entry::AttnNaivePaged => 27 * 0x1_0000 + 'a' as int * 0x100 + 'd' as int,
        Entry::LayoutTransposeBf16NldToLnd => 33 * 0x1_0000 + 'l' as int * 0x100 + 'd' as int,
        Entry::NormRmsnormResidualAddScaleRmsnormBf16 => 45 * 0x1_0000 + 'n' as int * 0x100 + '6' as int,
        Entry::NormRmsnormResidualAddBf16 => 31 * 0x1_0000 + 'n' as int * 0x100 + '6' as int,
        Entry::MlpChunkedGegluTanhBf16 => 28 * 0x1_0000 + 'm' as int * 0x100 + '6' as int,
        Entry::NormRmsnormNoScaleBf16 => 27 * 0x1_0000 + 'n' as int * 0x100 + '6' as int,
    }
}

/// Each symbol has its entry's key.
proof fn lemma_symbol_key(e: Entry)
    ensures
        symbol_key(symbol_of(e)) == entry_key(e),
{
    match e {
        Entry::LayoutEmbedBf16 => reveal_strlit("layout::embed_bf16"),
        Entry::RopeStandardTable => reveal_strlit("rope::rope_standard_table"),
        Entry::NormRmsnormBf16 => reveal_strlit("norm::rmsnorm_bf16"),
        Entry::GemmActXW => reveal_strlit("gemm::act_x_w"),
        Entry::MlpChunkedSwigluBf16 => reveal_strlit("mlp::chunked_swiglu_bf16"),
        Entry::AttnQkvDecodeQkNormRopeWriteKvBf16 => reveal_strlit("attn::qkv_decode_qk_norm_rope_write_kv_bf16"),
        Entry::AttnDispatchFlashinferDecode => reveal_strlit("attn::dispatch_attention_flashinfer_decode"),
        Entry::AttnSplitQkvBf16 => reveal_strlit("attn::split_qkv_bf16"),
        Entry::RopeQkRmsnormRopeBf16 => reveal_strlit("rope::qk_rmsnorm_rope_bf16"),
        Entry::AttnWriteKvToPages => reveal_strlit("attn::write_kv_to_pages"),
        Entry::AttnDequantKvCacheLayerToBf16Active => reveal_strlit("attn::dequant_kv_cache_layer_to_bf16_active"),
        Entry::AttnDispatchFlashinferPrefillBf16 => reveal_strlit("attn::dispatch_attention_flashinfer_prefill_bf16"),
        Entry::RopeRopeBf16 => reveal_strlit("rope::rope_bf16"),
        Entry::NormResidualAddBf16 => reveal_strlit("norm::residual_add_bf16"),
        Entry::NormAddBiasBf16 => reveal_strlit("norm::add_bias_bf16"),
        Entry::NormRmsnormGemmaBf16 => reveal_strlit("norm::rmsnorm_gemma_bf16"),
        Entry::RopeRopePartialBf16 => reveal_strlit("rope::rope_partial_bf16"),
        Entry::LayoutSplitQGateBf16 => reveal_strlit("layout::split_q_gate_bf16"),
        Entry::MlpSigmoidGateInplaceBf16 => reveal_strlit("mlp::sigmoid_gate_inplace_bf16"),
        Entry::SsmCausalConv1dUpdateBatchedBf16 => reveal_strlit("ssm::causal_conv1d_update_batched_bf16"),
        Entry::SsmCausalConv1dPrefillBatchedBf16 => reveal_strlit("ssm::causal_conv1d_prefill_batched_bf16"),
        Entry::SsmQwenGdnPostConvPrepBf16 => reveal_strlit("ssm::qwen_gdn_post_conv_prep_bf16"),
        Entry::SsmRecurrentGatedDeltaStepBatchedStateBf16 => reveal_strlit("ssm::recurrent_gated_delta_step_batched_state_bf16"),
        Entry::SsmChunkGatedDeltaPrefillBatched => reveal_strlit("ssm::chunk_gated_delta_prefill_batched"),
        Entry::SsmChunkGatedDeltaPrefillBatchedStateBf16 => reveal_strlit("ssm::chunk_gated_delta_prefill_batched_state_bf16"),
        Entry::NormRmsnormGatedFp32InBf16 => reveal_strlit("norm::rmsnorm_gated_fp32_in_bf16"),
        Entry::NormScalarMulBf16 => reveal_strlit("norm::scalar_mul_bf16"),
        Entry::MlpGegluTanhBf16 => reveal_strlit("mlp::geglu_tanh_bf16"),
        Entry::AttnLogitSoftcapBf16 => reveal_strlit("attn::logit_softcap_bf16"),
        Entry::AttnQkvPackedQkNormRopeVnormWriteKvBf16 => reveal_strlit("attn::qkv_packed_qk_norm_rope_vnorm_write_kv_bf16"),
        Entry::RopeQkRmsnormRopeBf16Rounded => reveal_strlit("rope::qk_rmsnorm_rope_bf16_rounded"),
        Entry::AttnFlashinferPrefill => reveal_strlit("attn::attention_flashinfer_prefill"),
        Entry::AttnNaivePaged => reveal_strlit("attn::attention_naive_paged"),
        Entry::LayoutTransposeBf16NldToLnd => reveal_strlit("layout::transpose_bf16_nld_to_lnd"),
        Entry::NormRmsnormResidualAddScaleRmsnormBf16 => reveal_strlit("norm::rmsnorm_residual_add_scale_rmsnorm_bf16"),
        Entry::NormRmsnormResidualAddBf16 => reveal_strlit("norm::rmsnorm_residual_add_bf16"),
        Entry::MlpChunkedGegluTanhBf16 => reveal_strlit("mlp::chunked_geglu_tanh_bf16"),
        Entry::NormRmsnormNoScaleBf16 => reveal_strlit("norm::rmsnorm_no_scale_bf16"),
    }
}

/// No two entries share a symbol.
pub proof fn law_symbols_are_distinct(a: Entry, b: Entry)
    requires
        symbol_of(a) == symbol_of(b),
    ensures
        a == b,
{
    lemma_symbol_key(a);
    lemma_symbol_key(b);
}

/// A symbol names its own entry.
pub proof fn law_symbol_names_its_entry(e: Entry)
    ensures
        entry_named(symbol_of(e)) == Some(e),
{
    let found = choose|x: Entry| #[trigger] symbol_of(x) == symbol_of(e);
    assert(symbol_of(e) == symbol_of(e));
    law_symbols_are_distinct(found, e);
}

/// The namespace an entry's kernel is in.
pub open spec fn namespace_of(e: Entry) -> Seq<char> {
    match e {
        Entry::LayoutEmbedBf16
        | Entry::LayoutSplitQGateBf16
        | Entry::LayoutTransposeBf16NldToLnd => "layout"@,
        Entry::RopeStandardTable
        | Entry::RopeQkRmsnormRopeBf16
        | Entry::RopeRopeBf16
        | Entry::RopeRopePartialBf16
        | Entry::RopeQkRmsnormRopeBf16Rounded => "rope"@,
        Entry::NormRmsnormBf16
        | Entry::NormResidualAddBf16
        | Entry::NormAddBiasBf16
        | Entry::NormRmsnormGemmaBf16
        | Entry::NormRmsnormGatedFp32InBf16
        | Entry::NormScalarMulBf16
        | Entry::NormRmsnormResidualAddScaleRmsnormBf16
        | Entry::NormRmsnormResidualAddBf16
        | Entry::NormRmsnormNoScaleBf16 => "norm"@,
        Entry::GemmActXW => "gemm"@,
        Entry::MlpChunkedSwigluBf16
        | Entry::MlpSigmoidGateInplaceBf16
        | Entry::MlpGegluTanhBf16
        | Entry::MlpChunkedGegluTanhBf16 => "mlp"@,
        Entry::AttnQkvDecodeQkNormRopeWriteKvBf16
        | Entry::AttnDispatchFlashinferDecode
        | Entry::AttnSplitQkvBf16
        | Entry::AttnWriteKvToPages
        | Entry::AttnDequantKvCacheLayerToBf16Active
        | Entry::AttnDispatchFlashinferPrefillBf16
        | Entry::AttnLogitSoftcapBf16
        | Entry::AttnQkvPackedQkNormRopeVnormWriteKvBf16
        | Entry::AttnFlashinferPrefill
        | Entry::AttnNaivePaged => "attn"@,
        Entry::SsmCausalConv1dUpdateBatchedBf16
        | Entry::SsmCausalConv1dPrefillBatchedBf16
        | Entry::SsmQwenGdnPostConvPrepBf16
        | Entry::SsmRecurrentGatedDeltaStepBatchedStateBf16
        | Entry::SsmChunkGatedDeltaPrefillBatched
        | Entry::SsmChunkGatedDeltaPrefillBatchedStateBf16 => "ssm"@,
    }
}

/// What an entry's kernel is called in its namespace.
pub open spec fn function_of(e: Entry) -> Seq<char> {
    match e {
        Entry::LayoutEmbedBf16 => "embed_bf16"@,
        Entry::RopeStandardTable => "rope_standard_table"@,
        Entry::NormRmsnormBf16 => "rmsnorm_bf16"@,
        Entry::GemmActXW => "act_x_w"@,
        Entry::MlpChunkedSwigluBf16 => "chunked_swiglu_bf16"@,
        Entry::AttnQkvDecodeQkNormRopeWriteKvBf16 => "qkv_decode_qk_norm_rope_write_kv_bf16"@,
        Entry::AttnDispatchFlashinferDecode => "dispatch_attention_flashinfer_decode"@,
        Entry::AttnSplitQkvBf16 => "split_qkv_bf16"@,
        Entry::RopeQkRmsnormRopeBf16 => "qk_rmsnorm_rope_bf16"@,
        Entry::AttnWriteKvToPages => "write_kv_to_pages"@,
        Entry::AttnDequantKvCacheLayerToBf16Active => "dequant_kv_cache_layer_to_bf16_active"@,
        Entry::AttnDispatchFlashinferPrefillBf16 => "dispatch_attention_flashinfer_prefill_bf16"@,
        Entry::RopeRopeBf16 => "rope_bf16"@,
        Entry::NormResidualAddBf16 => "residual_add_bf16"@,
        Entry::NormAddBiasBf16 => "add_bias_bf16"@,
        Entry::NormRmsnormGemmaBf16 => "rmsnorm_gemma_bf16"@,
        Entry::RopeRopePartialBf16 => "rope_partial_bf16"@,
        Entry::LayoutSplitQGateBf16 => "split_q_gate_bf16"@,
        Entry::MlpSigmoidGateInplaceBf16 => "sigmoid_gate_inplace_bf16"@,
        Entry::SsmCausalConv1dUpdateBatchedBf16 => "causal_conv1d_update_batched_bf16"@,
        Entry::SsmCausalConv1dPrefillBatchedBf16 => "causal_conv1d_prefill_batched_bf16"@,
        Entry::SsmQwenGdnPostConvPrepBf16 => "qwen_gdn_post_conv_prep_bf16"@,
        Entry::SsmRecurrentGatedDeltaStepBatchedStateBf16 => "recurrent_gated_delta_step_batched_state_bf16"@,
        Entry::SsmChunkGatedDeltaPrefillBatched => "chunk_gated_delta_prefill_batched"@,
        Entry::SsmChunkGatedDeltaPrefillBatchedStateBf16 => "chunk_gated_delta_prefill_batched_state_bf16"@,
        Entry::NormRmsnormGatedFp32InBf16 => "rmsnorm_gated_fp32_in_bf16"@,
        Entry::NormScalarMulBf16 => "scalar_mul_bf16"@,
        Entry::MlpGegluTanhBf16 => "geglu_tanh_bf16"@,
        Entry::AttnLogitSoftcapBf16 => "logit_softcap_bf16"@,
        Entry::AttnQkvPackedQkNormRopeVnormWriteKvBf16 => "qkv_packed_qk_norm_rope_vnorm_write_kv_bf16"@,
        Entry::RopeQkRmsnormRopeBf16Rounded => "qk_rmsnorm_rope_bf16_rounded"@,
        Entry::AttnFlashinferPrefill => "attention_flashinfer_prefill"@,
        Entry::AttnNaivePaged => "attention_naive_paged"@,
        Entry::LayoutTransposeBf16NldToLnd => "transpose_bf16_nld_to_lnd"@,
        Entry::NormRmsnormResidualAddScaleRmsnormBf16 => "rmsnorm_residual_add_scale_rmsnorm_bf16"@,
        Entry::NormRmsnormResidualAddBf16 => "rmsnorm_residual_add_bf16"@,
        Entry::MlpChunkedGegluTanhBf16 => "chunked_geglu_tanh_bf16"@,
        Entry::NormRmsnormNoScaleBf16 => "rmsnorm_no_scale_bf16"@,
    }
}

/// A symbol is a kernel's namespace and, behind two colons, what the kernel is
/// called there.
pub proof fn law_a_symbol_is_a_qualified_name(e: Entry)
    ensures
        symbol_of(e) == namespace_of(e) + "::"@ + function_of(e),
{
    reveal_strlit("::");
    reveal_strlit("layout");
    reveal_strlit("rope");
    reveal_strlit("norm");
    reveal_strlit("gemm");
    reveal_strlit("mlp");
    reveal_strlit("attn");
    reveal_strlit("ssm");
    match e {
        Entry::LayoutEmbedBf16 => {
            reveal_strlit("layout::embed_bf16");
            reveal_strlit("embed_bf16");
        },
        Entry::RopeStandardTable => {
            reveal_strlit("rope::rope_standard_table");
            reveal_strlit("rope_standard_table");
        },
        Entry::NormRmsnormBf16 => {
            reveal_strlit("norm::rmsnorm_bf16");
            reveal_strlit("rmsnorm_bf16");
        },
        Entry::GemmActXW => {
            reveal_strlit("gemm::act_x_w");
            reveal_strlit("act_x_w");
        },
        Entry::MlpChunkedSwigluBf16 => {
            reveal_strlit("mlp::chunked_swiglu_bf16");
            reveal_strlit("chunked_swiglu_bf16");
        },
        Entry::AttnQkvDecodeQkNormRopeWriteKvBf16 => {
            reveal_strlit("attn::qkv_decode_qk_norm_rope_write_kv_bf16");
            reveal_strlit("qkv_decode_qk_norm_rope_write_kv_bf16");
        },
        Entry::AttnDispatchFlashinferDecode => {
            reveal_strlit("attn::dispatch_attention_flashinfer_decode");
            reveal_strlit("dispatch_attention_flashinfer_decode");
        },
        Entry::AttnSplitQkvBf16 => {
            reveal_strlit("attn::split_qkv_bf16");
            reveal_strlit("split_qkv_bf16");
        },
        Entry::RopeQkRmsnormRopeBf16 => {
            reveal_strlit("rope::qk_rmsnorm_rope_bf16");
            reveal_strlit("qk_rmsnorm_rope_bf16");
        },
        Entry::AttnWriteKvToPages => {
            reveal_strlit("attn::write_kv_to_pages");
            reveal_strlit("write_kv_to_pages");
        },
        Entry::AttnDequantKvCacheLayerToBf16Active => {
            reveal_strlit("attn::dequant_kv_cache_layer_to_bf16_active");
            reveal_strlit("dequant_kv_cache_layer_to_bf16_active");
        },
        Entry::AttnDispatchFlashinferPrefillBf16 => {
            reveal_strlit("attn::dispatch_attention_flashinfer_prefill_bf16");
            reveal_strlit("dispatch_attention_flashinfer_prefill_bf16");
        },
        Entry::RopeRopeBf16 => {
            reveal_strlit("rope::rope_bf16");
            reveal_strlit("rope_bf16");
        },
        Entry::NormResidualAddBf16 => {
            reveal_strlit("norm::residual_add_bf16");
            reveal_strlit("residual_add_bf16");
        },
        Entry::NormAddBiasBf16 => {
            reveal_strlit("norm::add_bias_bf16");
            reveal_strlit("add_bias_bf16");
        },
        Entry::NormRmsnormGemmaBf16 => {
            reveal_strlit("norm::rmsnorm_gemma_bf16");
            reveal_strlit("rmsnorm_gemma_bf16");
        },
        Entry::RopeRopePartialBf16 => {
            reveal_strlit("rope::rope_partial_bf16");
            reveal_strlit("rope_partial_bf16");
        },
        Entry::LayoutSplitQGateBf16 => {
            reveal_strlit("layout::split_q_gate_bf16");
            reveal_strlit("split_q_gate_bf16");
        },
        Entry::MlpSigmoidGateInplaceBf16 => {
            reveal_strlit("mlp::sigmoid_gate_inplace_bf16");
            reveal_strlit("sigmoid_gate_inplace_bf16");
        },
        Entry::SsmCausalConv1dUpdateBatchedBf16 => {
            reveal_strlit("ssm::causal_conv1d_update_batched_bf16");
            reveal_strlit("causal_conv1d_update_batched_bf16");
        },
        Entry::SsmCausalConv1dPrefillBatchedBf16 => {
            reveal_strlit("ssm::causal_conv1d_prefill_batched_bf16");
            reveal_strlit("causal_conv1d_prefill_batched_bf16");
        },
        Entry::SsmQwenGdnPostConvPrepBf16 => {
            reveal_strlit("ssm::qwen_gdn_post_conv_prep_bf16");
            reveal_strlit("qwen_gdn_post_conv_prep_bf16");
        },
        Entry::SsmRecurrentGatedDeltaStepBatchedStateBf16 => {
            reveal_strlit("ssm::recurrent_gated_delta_step_batched_state_bf16");
            reveal_strlit("recurrent_gated_delta_step_batched_state_bf16");
        },
        Entry::SsmChunkGatedDeltaPrefillBatched => {
            reveal_strlit("ssm::chunk_gated_delta_prefill_batched");
            reveal_strlit("chunk_gated_delta_prefill_batched");
        },
        Entry::SsmChunkGatedDeltaPrefillBatchedStateBf16 => {
            reveal_strlit("ssm::chunk_gated_delta_prefill_batched_state_bf16");
            reveal_strlit("chunk_gated_delta_prefill_batched_state_bf16");
        },
        Entry::NormRmsnormGatedFp32InBf16 => {
            reveal_strlit("norm::rmsnorm_gated_fp32_in_bf16");
            reveal_strlit("rmsnorm_gated_fp32_in_bf16");
        },
        Entry::NormScalarMulBf16 => {
            reveal_strlit("norm::scalar_mul_bf16");
            reveal_strlit("scalar_mul_bf16");
        },
        Entry::MlpGegluTanhBf16 => {
            reveal_strlit("mlp::geglu_tanh_bf16");
            reveal_strlit("geglu_tanh_bf16");
        },
        Entry::AttnLogitSoftcapBf16 => {
            reveal_strlit("attn::logit_softcap_bf16");
            reveal_strlit("logit_softcap_bf16");
        },
        Entry::AttnQkvPackedQkNormRopeVnormWriteKvBf16 => {
            reveal_strlit("attn::qkv_packed_qk_norm_rope_vnorm_write_kv_bf16");
            reveal_strlit("qkv_packed_qk_norm_rope_vnorm_write_kv_bf16");
        },
        Entry::RopeQkRmsnormRopeBf16Rounded => {
            reveal_strlit("rope::qk_rmsnorm_rope_bf16_rounded");
            reveal_strlit("qk_rmsnorm_rope_bf16_rounded");
        },
        Entry::AttnFlashinferPrefill => {
            reveal_strlit("attn::attention_flashinfer_prefill");
            reveal_strlit("attention_flashinfer_prefill");
        },
        Entry::AttnNaivePaged => {
            reveal_strlit("attn::attention_naive_paged");
            reveal_strlit("attention_naive_paged");
        },
        Entry::LayoutTransposeBf16NldToLnd => {
            reveal_strlit("layout::transpose_bf16_nld_to_lnd");
            reveal_strlit("transpose_bf16_nld_to_lnd");
        },
        Entry::NormRmsnormResidualAddScaleRmsnormBf16 => {
            reveal_strlit("norm::rmsnorm_residual_add_scale_rmsnorm_bf16");
            reveal_strlit("rmsnorm_residual_add_scale_rmsnorm_bf16");
        },
        Entry::NormRmsnormResidualAddBf16 => {
            reveal_strlit("norm::rmsnorm_residual_add_bf16");
            reveal_strlit("rmsnorm_residual_add_bf16");
        },
        Entry::MlpChunkedGegluTanhBf16 => {
            reveal_strlit("mlp::chunked_geglu_tanh_bf16");
            reveal_strlit("chunked_geglu_tanh_bf16");
        },
        Entry::NormRmsnormNoScaleBf16 => {
            reveal_strlit("norm::rmsnorm_no_scale_bf16");
            reveal_strlit("rmsnorm_no_scale_bf16");
        },
    }
    assert(symbol_of(e) =~= namespace_of(e) + "::"@ + function_of(e));
}

impl Entry {
    /// The symbol a trace names this entry by.
    pub fn symbol(self) -> (symbol: &'static str)
        ensures
            symbol@ == symbol_of(self),
    {
        match self {
            Entry::LayoutEmbedBf16 => "layout::embed_bf16",
            Entry::RopeStandardTable => "rope::rope_standard_table",
            Entry::NormRmsnormBf16 => "norm::rmsnorm_bf16",
            Entry::GemmActXW => "gemm::act_x_w",
            Entry::MlpChunkedSwigluBf16 => "mlp::chunked_swiglu_bf16",
            Entry::AttnQkvDecodeQkNormRopeWriteKvBf16 =>
                "attn::qkv_decode_qk_norm_rope_write_kv_bf16",
            Entry::AttnDispatchFlashinferDecode => "attn::dispatch_attention_flashinfer_decode",
            Entry::AttnSplitQkvBf16 => "attn::split_qkv_bf16",
            Entry::RopeQkRmsnormRopeBf16 => "rope::qk_rmsnorm_rope_bf16",
            Entry::AttnWriteKvToPages => "attn::write_kv_to_pages",
            Entry::AttnDequantKvCacheLayerToBf16Active =>
                "attn::dequant_kv_cache_layer_to_bf16_active",
            Entry::AttnDispatchFlashinferPrefillBf16 =>
                "attn::dispatch_attention_flashinfer_prefill_bf16",
            Entry::RopeRopeBf16 => "rope::rope_bf16",
            Entry::NormResidualAddBf16 => "norm::residual_add_bf16",
            Entry::NormAddBiasBf16 => "norm::add_bias_bf16",
            Entry::NormRmsnormGemmaBf16 => "norm::rmsnorm_gemma_bf16",
            Entry::RopeRopePartialBf16 => "rope::rope_partial_bf16",
            Entry::LayoutSplitQGateBf16 => "layout::split_q_gate_bf16",
            Entry::MlpSigmoidGateInplaceBf16 => "mlp::sigmoid_gate_inplace_bf16",
            Entry::SsmCausalConv1dUpdateBatchedBf16 => "ssm::causal_conv1d_update_batched_bf16",
            Entry::SsmCausalConv1dPrefillBatchedBf16 => "ssm::causal_conv1d_prefill_batched_bf16",
            Entry::SsmQwenGdnPostConvPrepBf16 => "ssm::qwen_gdn_post_conv_prep_bf16",
            Entry::SsmRecurrentGatedDeltaStepBatchedStateBf16 =>
                "ssm::recurrent_gated_delta_step_batched_state_bf16",
            Entry::SsmChunkGatedDeltaPrefillBatched => "ssm::chunk_gated_delta_prefill_batched",
            Entry::SsmChunkGatedDeltaPrefillBatchedStateBf16 =>
                "ssm::chunk_gated_delta_prefill_batched_state_bf16",
            Entry::NormRmsnormGatedFp32InBf16 => "norm::rmsnorm_gated_fp32_in_bf16",
            Entry::NormScalarMulBf16 => "norm::scalar_mul_bf16",
            Entry::MlpGegluTanhBf16 => "mlp::geglu_tanh_bf16",
            Entry::AttnLogitSoftcapBf16 => "attn::logit_softcap_bf16",
            Entry::AttnQkvPackedQkNormRopeVnormWriteKvBf16 =>
                "attn::qkv_packed_qk_norm_rope_vnorm_write_kv_bf16",
            Entry::RopeQkRmsnormRopeBf16Rounded => "rope::qk_rmsnorm_rope_bf16_rounded",
            Entry::AttnFlashinferPrefill => "attn::attention_flashinfer_prefill",
            Entry::AttnNaivePaged => "attn::attention_naive_paged",
            Entry::LayoutTransposeBf16NldToLnd => "layout::transpose_bf16_nld_to_lnd",
            Entry::NormRmsnormResidualAddScaleRmsnormBf16 =>
                "norm::rmsnorm_residual_add_scale_rmsnorm_bf16",
            Entry::NormRmsnormResidualAddBf16 => "norm::rmsnorm_residual_add_bf16",
            Entry::MlpChunkedGegluTanhBf16 => "mlp::chunked_geglu_tanh_bf16",
            Entry::NormRmsnormNoScaleBf16 => "norm::rmsnorm_no_scale_bf16",
        }
    }

    /// The entry a symbol names, when one does.
    pub fn named(kernel: &str) -> (entry: Option<Entry>)
        ensures
            entry == entry_named(kernel@),
    {
        let found = Self::search(kernel);
        proof {
            if let Some(e) = found {
                law_symbol_names_its_entry(e);
            }
        }
        found
    }

    /// Compare a symbol with each entry's in turn.
    fn search(kernel: &str) -> (entry: Option<Entry>)
        ensures
            match entry {
                Some(e) => symbol_of(e) == kernel@,
                None => forall|e: Entry| #[trigger] symbol_of(e) != kernel@,
            },
    {
        if str_eq(kernel, "layout::embed_bf16") {
            return Some(Entry::LayoutEmbedBf16);
        }
        if str_eq(kernel, "rope::rope_standard_table") {
            return Some(Entry::RopeStandardTable);
        }
        if str_eq(kernel, "norm::rmsnorm_bf16") {
            return Some(Entry::NormRmsnormBf16);
        }
        if str_eq(kernel, "gemm::act_x_w") {
            return Some(Entry::GemmActXW);
        }
        if str_eq(kernel, "mlp::chunked_swiglu_bf16") {
            return Some(Entry::MlpChunkedSwigluBf16);
        }
        if str_eq(kernel, "attn::qkv_decode_qk_norm_rope_write_kv_bf16") {
            return Some(Entry::AttnQkvDecodeQkNormRopeWriteKvBf16);
        }
        if str_eq(kernel, "attn::dispatch_attention_flashinfer_decode") {
            return Some(Entry::AttnDispatchFlashinferDecode);
        }
        if str_eq(kernel, "attn::split_qkv_bf16") {
            return Some(Entry::AttnSplitQkvBf16);
        }
        if str_eq(kernel, "rope::qk_rmsnorm_rope_bf16") {
            return Some(Entry::RopeQkRmsnormRopeBf16);
        }
        if str_eq(kernel, "attn::write_kv_to_pages") {
            return Some(Entry::AttnWriteKvToPages);
        }
        if str_eq(kernel, "attn::dequant_kv_cache_layer_to_bf16_active") {
            return Some(Entry::AttnDequantKvCacheLayerToBf16Active);
        }
        if str_eq(kernel, "attn::dispatch_attention_flashinfer_prefill_bf16") {
            return Some(Entry::AttnDispatchFlashinferPrefillBf16);
        }
        if str_eq(kernel, "rope::rope_bf16") {
            return Some(Entry::RopeRopeBf16);
        }
        if str_eq(kernel, "norm::residual_add_bf16") {
            return Some(Entry::NormResidualAddBf16);
        }
        if str_eq(kernel, "norm::add_bias_bf16") {
            return Some(Entry::NormAddBiasBf16);
        }
        if str_eq(kernel, "norm::rmsnorm_gemma_bf16") {
            return Some(Entry::NormRmsnormGemmaBf16);
        }
        if str_eq(kernel, "rope::rope_partial_bf16") {
            return Some(Entry::RopeRopePartialBf16);
        }
        if str_eq(kernel, "layout::split_q_gate_bf16") {
            return Some(Entry::LayoutSplitQGateBf16);
        }
        if str_eq(kernel, "mlp::sigmoid_gate_inplace_bf16") {
            return Some(Entry::MlpSigmoidGateInplaceBf16);
        }
        if str_eq(kernel, "ssm::causal_conv1d_update_batched_bf16") {
            return Some(Entry::SsmCausalConv1dUpdateBatchedBf16);
        }
        if str_eq(kernel, "ssm::causal_conv1d_prefill_batched_bf16") {
            return Some(Entry::SsmCausalConv1dPrefillBatchedBf16);
        }
        if str_eq(kernel, "ssm::qwen_gdn_post_conv_prep_bf16") {
            return Some(Entry::SsmQwenGdnPostConvPrepBf16);
        }
        if str_eq(kernel, "ssm::recurrent_gated_delta_step_batched_state_bf16") {
            return Some(Entry::SsmRecurrentGatedDeltaStepBatchedStateBf16);
        }
        if str_eq(kernel, "ssm::chunk_gated_delta_prefill_batched") {
            return Some(Entry::SsmChunkGatedDeltaPrefillBatched);
        }
        if str_eq(kernel, "ssm::chunk_gated_delta_prefill_batched_state_bf16") {
            return Some(Entry::SsmChunkGatedDeltaPrefillBatchedStateBf16);
        }
        if str_eq(kernel, "norm::rmsnorm_gated_fp32_in_bf16") {
            return Some(Entry::NormRmsnormGatedFp32InBf16);
        }
        if str_eq(kernel, "norm::scalar_mul_bf16") {
            return Some(Entry::NormScalarMulBf16);
        }
        if str_eq(kernel, "mlp::geglu_tanh_bf16") {
            return Some(Entry::MlpGegluTanhBf16);
        }
        if str_eq(kernel, "attn::logit_softcap_bf16") {
            return Some(Entry::AttnLogitSoftcapBf16);
        }
        if str_eq(kernel, "attn::qkv_packed_qk_norm_rope_vnorm_write_kv_bf16") {
            return Some(Entry::AttnQkvPackedQkNormRopeVnormWriteKvBf16);
        }
        if str_eq(kernel, "rope::qk_rmsnorm_rope_bf16_rounded") {
            return Some(Entry::RopeQkRmsnormRopeBf16Rounded);
        }
        if str_eq(kernel, "attn::attention_flashinfer_prefill") {
            return Some(Entry::AttnFlashinferPrefill);
        }
        if str_eq(kernel, "attn::attention_naive_paged") {
            return Some(Entry::AttnNaivePaged);
        }
        if str_eq(kernel, "layout::transpose_bf16_nld_to_lnd") {
            return Some(Entry::LayoutTransposeBf16NldToLnd);
        }
        if str_eq(kernel, "norm::rmsnorm_residual_add_scale_rmsnorm_bf16") {
            return Some(Entry::NormRmsnormResidualAddScaleRmsnormBf16);
        }
        if str_eq(kernel, "norm::rmsnorm_residual_add_bf16") {
            return Some(Entry::NormRmsnormResidualAddBf16);
        }
        if str_eq(kernel, "mlp::chunked_geglu_tanh_bf16") {
            return Some(Entry::MlpChunkedGegluTanhBf16);
        }
        if str_eq(kernel, "norm::rmsnorm_no_scale_bf16") {
            return Some(Entry::NormRmsnormNoScaleBf16);
        }
        None
    }
}

} // verus!
