//! The inference pipeline: embed, pool, project, and pick the next token.
//!
//! What is verified is the spine of the computation and its value chain:
//! the rejection of empty and oversized inputs before any tensor is
//! allocated, the shape of every intermediate, and, on success, that the
//! selected token is the argmax of the projection of the pooled embedding
//! rows drawn from the seed-pinned tables — each numeric kernel's result
//! named as a function of the device and its operands, since the values
//! themselves are floating point and live outside this crate. The toy
//! weight tables are drawn from a seeded generator, so a fixed seed on a
//! fixed device fixes the whole prediction.

use vstd::prelude::*;

use rand::SeedableRng;
use rand_distr::Distribution;

use crate::codec::TextCodec;
use crate::codec::decoding_of;
use crate::compute_device::DeviceHandle;
use crate::errors::ModelError;

verus! {

#[verifier::external_type_specification]
#[verifier::external_body]
pub struct ExTensor(candle_core::Tensor);

#[verifier::external_type_specification]
#[verifier::external_body]
pub struct ExCandleError(candle_core::Error);

/// The shape of a tensor: the extent of each of its dimensions, so a scalar
/// has the empty shape.
pub uninterp spec fn tensor_dims(t: candle_core::Tensor) -> Seq<nat>;

/// The device a tensor's storage lives on.
pub uninterp spec fn tensor_device(t: candle_core::Tensor) -> candle_core::Device;

/// The value a scalar unsigned-integer tensor holds.
pub uninterp spec fn tensor_scalar_u32(t: candle_core::Tensor) -> u32;

/// The values a tensor holds, in row-major order: the IEEE bit patterns for
/// a floating-point tensor, the values themselves for an unsigned-integer
/// one.
pub uninterp spec fn tensor_value_bits(t: candle_core::Tensor) -> Seq<u32>;

/// The bit patterns of `count` values drawn from the toy normal weight
/// distribution (mean 0, standard deviation one tenth) by the seeded
/// generator: a function of the seed and the count alone.
pub uninterp spec fn normal_table_bits(seed: u64, count: usize) -> Seq<u32>;

/// The pooled row: the elementwise arithmetic mean over the `rows` rows of
/// a rows × cols tensor with the given values, computed by the device's
/// mean kernel — a function of the device and the operand alone.
pub uninterp spec fn mean_bits(
    dev: candle_core::Device,
    values: Seq<u32>,
    rows: nat,
    cols: nat,
) -> Seq<u32>;

/// The product row: a 1 × k row of values multiplied by a k × n table,
/// computed by the device's matrix-multiplication kernel — a function of
/// the device and the operands alone.
pub uninterp spec fn row_matmul_bits(
    dev: candle_core::Device,
    row: Seq<u32>,
    table: Seq<u32>,
    k: nat,
    n: nat,
) -> Seq<u32>;

/// The index of the maximum of a vector of floating-point values, the
/// first occurrence winning on equal values, as the device's argmax kernel
/// computes it — a function of the device and the operand alone.
pub uninterp spec fn argmax_index_of(dev: candle_core::Device, values: Seq<u32>) -> u32;

/// The gathered embedding rows: row `k` of the result is the row of the
/// rows × `cols` table selected by the `k`-th id. A pure rearrangement, the
/// same on every device.
pub open spec fn gather_rows(table: Seq<u32>, cols: nat, ids: Seq<u32>) -> Seq<u32> {
    Seq::new(
        ids.len() * cols,
        |k: int| table[(ids[k / (cols as int)] as int) * (cols as int) + k % (cols as int)],
    )
}

/// Relies on rand::rngs::StdRng::seed_from_u64, rand_distr::Normal,
/// candle_core::Tensor::from_vec and Tensor::to_dtype: a rows × cols table
/// of values drawn from N(0, 1/10) by a deterministic seeded generator,
/// materialized on the device as a single-precision tensor. The same seed
/// and shape always give the same table. The distribution's parameters are
/// taken from millisecond durations: 0 ms and 100 ms are exactly 0.0 and
/// 0.1 seconds.
#[verifier::external_body]
fn weight_table(seed: u64, rows: usize, cols: usize, device: &candle_core::Device) -> (r: Result<
    candle_core::Tensor,
    candle_core::Error,
>)
    requires
        rows * cols <= usize::MAX,
    ensures
        r matches Ok(t) ==> tensor_dims(t) == seq![rows as nat, cols as nat],
        r matches Ok(t) ==> tensor_value_bits(t) == normal_table_bits(seed, (rows * cols) as usize),
        r matches Ok(t) ==> tensor_device(t) == *device,
{
    let mut rng = rand::rngs::StdRng::seed_from_u64(seed);
    let mean = std::time::Duration::from_millis(0).as_secs_f64();
    let std_dev = std::time::Duration::from_millis(100).as_secs_f64();
    let normal = match rand_distr::Normal::new(mean, std_dev) {
        Ok(n) => n,
        Err(e) => {
            return Err(candle_core::Error::wrap(e));
        },
    };
    let data: Vec<_> = normal.sample_iter(&mut rng).take(rows * cols).collect();
    let table = candle_core::Tensor::from_vec(data, (rows, cols), device)?;
    table.to_dtype(candle_core::DType::F32)
}

/// Relies on candle_core::Tensor::new over a slice of unsigned ids: a
/// one-dimensional index tensor holding exactly the given ids.
#[verifier::external_body]
fn ids_tensor(ids: &Vec<u32>, device: &candle_core::Device) -> (r: Result<
    candle_core::Tensor,
    candle_core::Error,
>)
    ensures
        r matches Ok(t) ==> tensor_dims(t) == seq![ids@.len()],
        r matches Ok(t) ==> tensor_value_bits(t) == ids@,
        r matches Ok(t) ==> tensor_device(t) == *device,
{
    candle_core::Tensor::new(ids.as_slice(), device)
}

/// Relies on candle_core::Tensor::index_select over dimension 0: one row of
/// the table per index, in index order. The gather claim holds only for
/// tables whose row count the index type covers: the kernel treats an
/// index equal to the index type's maximum value as a padding sentinel and
/// fills its row with zeros, so a table with more rows than that is left
/// out of the claim; below it, every in-range index yields its own row and
/// an out-of-range index is an error, never a wrong row.
#[verifier::external_body]
fn index_select0(table: &candle_core::Tensor, ids: &candle_core::Tensor) -> (r: Result<
    candle_core::Tensor,
    candle_core::Error,
>)
    ensures
        r matches Ok(t) ==> (tensor_dims(*table).len() == 2 && tensor_dims(*ids).len() == 1
            ==> tensor_dims(t) == seq![tensor_dims(*ids)[0], tensor_dims(*table)[1]]),
        r matches Ok(t) ==> (tensor_dims(*table).len() == 2 && tensor_dims(*table)[0] <= u32::MAX
            && tensor_dims(*ids).len() == 1 && (forall|i: int|
            0 <= i < tensor_value_bits(*ids).len() ==> (#[trigger] tensor_value_bits(*ids)[i]
                as nat) < tensor_dims(*table)[0]) ==> tensor_value_bits(t) == gather_rows(
            tensor_value_bits(*table),
            tensor_dims(*table)[1],
            tensor_value_bits(*ids),
        )),
        r matches Ok(t) ==> tensor_device(t) == tensor_device(*table),
{
    table.index_select(ids, 0)
}

/// Relies on candle_core::Tensor::mean over dimension 0: the arithmetic
/// mean of the rows, with the pooled dimension squeezed away.
#[verifier::external_body]
fn mean0(t: &candle_core::Tensor) -> (r: Result<candle_core::Tensor, candle_core::Error>)
    ensures
        r matches Ok(m) ==> (tensor_dims(*t).len() == 2 ==> tensor_dims(m) == seq![
            tensor_dims(*t)[1],
        ]),
        r matches Ok(m) ==> (tensor_dims(*t).len() == 2 ==> tensor_value_bits(m) == mean_bits(
            tensor_device(*t),
            tensor_value_bits(*t),
            tensor_dims(*t)[0],
            tensor_dims(*t)[1],
        )),
        r matches Ok(m) ==> tensor_device(m) == tensor_device(*t),
{
    t.mean(0)
}

/// Relies on candle_core::Tensor::unsqueeze at position 0: the same values
/// behind a leading extent of one.
#[verifier::external_body]
fn unsqueeze0(t: &candle_core::Tensor) -> (r: Result<candle_core::Tensor, candle_core::Error>)
    ensures
        r matches Ok(u) ==> (tensor_dims(*t).len() == 1 ==> tensor_dims(u) == seq![
            1nat,
            tensor_dims(*t)[0],
        ]),
        r matches Ok(u) ==> tensor_value_bits(u) == tensor_value_bits(*t),
        r matches Ok(u) ==> tensor_device(u) == tensor_device(*t),
{
    t.unsqueeze(0)
}

/// Relies on candle_core::Tensor::matmul: a matrix product, which succeeds
/// only when the inner extents agree and then has the outer extents; for
/// the single-row product this pipeline takes, the values are the device's
/// kernel applied to the row and the table.
#[verifier::external_body]
fn matmul2(a: &candle_core::Tensor, b: &candle_core::Tensor) -> (r: Result<
    candle_core::Tensor,
    candle_core::Error,
>)
    ensures
        r matches Ok(p) ==> (tensor_dims(*a).len() == 2 && tensor_dims(*b).len() == 2
            ==> tensor_dims(p) == seq![tensor_dims(*a)[0], tensor_dims(*b)[1]]),
        r matches Ok(p) ==> (tensor_dims(*a).len() == 2 && tensor_dims(*a)[0] == 1 && tensor_dims(
            *b,
        ).len() == 2 && tensor_dims(*a)[1] == tensor_dims(*b)[0] ==> tensor_value_bits(p)
            == row_matmul_bits(
            tensor_device(*a),
            tensor_value_bits(*a),
            tensor_value_bits(*b),
            tensor_dims(*b)[0],
            tensor_dims(*b)[1],
        )),
        r matches Ok(p) ==> tensor_device(p) == tensor_device(*a),
{
    a.matmul(b)
}

/// Relies on candle_core::Tensor::squeeze at position 0: a leading extent
/// of one is removed, the values untouched.
#[verifier::external_body]
fn squeeze0(t: &candle_core::Tensor) -> (r: Result<candle_core::Tensor, candle_core::Error>)
    ensures
        r matches Ok(s) ==> (tensor_dims(*t).len() == 2 && tensor_dims(*t)[0] == 1
            ==> tensor_dims(s) == seq![tensor_dims(*t)[1]]),
        r matches Ok(s) ==> tensor_value_bits(s) == tensor_value_bits(*t),
        r matches Ok(s) ==> tensor_device(s) == tensor_device(*t),
{
    t.squeeze(0)
}

/// Relies on candle_core::Tensor::argmax over dimension 0 of a non-empty
/// vector: a scalar index tensor whose value is the index of the maximum,
/// below the vector's extent; the reduce keeps the earlier index on equal
/// scores, so the first occurrence of the maximum wins. An empty vector is
/// excluded: the reduce does not accept one.
#[verifier::external_body]
fn argmax0(t: &candle_core::Tensor) -> (r: Result<candle_core::Tensor, candle_core::Error>)
    requires
        tensor_dims(*t).len() == 1,
        tensor_dims(*t)[0] >= 1,
    ensures
        r matches Ok(a) ==> tensor_dims(a) == Seq::<nat>::empty(),
        r matches Ok(a) ==> (tensor_dims(*t)[0] <= u32::MAX ==> (tensor_scalar_u32(a) as nat)
            < tensor_dims(*t)[0] && tensor_scalar_u32(a) == argmax_index_of(
            tensor_device(*t),
            tensor_value_bits(*t),
        )),
{
    t.argmax(0)
}

/// Relies on candle_core::Tensor::to_scalar: the value a scalar
/// unsigned-integer tensor holds.
#[verifier::external_body]
fn to_scalar_u32(t: &candle_core::Tensor) -> (r: Result<u32, candle_core::Error>)
    ensures
        r matches Ok(v) ==> v == tensor_scalar_u32(*t),
{
    t.to_scalar::<u32>()
}

/// Relies on candle_core::Tensor::get: the scalar at one position of a
/// vector, holding exactly that element.
#[verifier::external_body]
fn get1(t: &candle_core::Tensor, i: usize) -> (r: Result<
    candle_core::Tensor,
    candle_core::Error,
>)
    ensures
        r matches Ok(s) ==> (tensor_dims(*t).len() == 1 && i < tensor_dims(*t)[0] ==> tensor_dims(
            s,
        ) == Seq::<nat>::empty() && tensor_value_bits(s) == seq![tensor_value_bits(*t)[i as int]]),
{
    t.get(i)
}

/// One next-token prediction: the selected id, its score as a scalar score
/// tensor, and its decoded text.
pub struct PredictionResult {
    pub token_id: u32,
    pub score: candle_core::Tensor,
    pub text: String,
}

/// Whether the requested table shapes and token ids can be worked with at
/// all: a non-empty vocabulary whose indexes fit the backend's index type,
/// tables whose element count fits an allocation, and every token id inside
/// the vocabulary.
pub open spec fn spec_shapes_ok(tokens: Seq<u32>, vocab_size: usize, hidden_size: usize) -> bool {
    &&& vocab_size >= 1
    &&& vocab_size <= u32::MAX
    &&& vocab_size * hidden_size <= usize::MAX
    &&& forall|i: int| 0 <= i < tokens.len() ==> (#[trigger] tokens[i] as nat) < vocab_size as nat
}

/// The seed the projection table is drawn with: the successor of the
/// embedding table's seed, wrapping at the top, so the two tables are
/// sampled independently.
pub open spec fn projection_seed(seed: u64) -> u64 {
    if seed == u64::MAX {
        0u64
    } else {
        (seed + 1) as u64
    }
}

/// The score vector of a prediction: the pooled mean of the embedding rows
/// selected by the tokens from the seed-pinned embedding table, projected
/// through the seed-pinned projection table, on the given device.
pub open spec fn spec_scores(
    dev: candle_core::Device,
    seed: u64,
    tokens: Seq<u32>,
    vocab_size: usize,
    hidden_size: usize,
) -> Seq<u32> {
    row_matmul_bits(
        dev,
        mean_bits(
            dev,
            gather_rows(
                normal_table_bits(seed, (vocab_size * hidden_size) as usize),
                hidden_size as nat,
                tokens,
            ),
            tokens.len(),
            hidden_size as nat,
        ),
        normal_table_bits(projection_seed(seed), (hidden_size * vocab_size) as usize),
        hidden_size as nat,
        vocab_size as nat,
    )
}

/// The token a prediction selects: the index of the maximum score, the
/// first occurrence winning on ties, as the device's argmax computes it.
pub open spec fn spec_selected_token(
    dev: candle_core::Device,
    seed: u64,
    tokens: Seq<u32>,
    vocab_size: usize,
    hidden_size: usize,
) -> u32 {
    argmax_index_of(dev, spec_scores(dev, seed, tokens, vocab_size, hidden_size))
}

/// Predicts the single most likely continuation token for a token sequence.
///
/// Empty input is rejected as `EmptyInput` before any tensor is allocated;
/// unusable shapes or an out-of-vocabulary id are rejected as
/// `PipelineError`, as is any numeric-backend failure; a failure to decode
/// the selected id is `CodecError`. On success the selected id is exactly
/// the argmax (first occurrence on ties) of the projection of the pooled
/// embedding rows drawn by the tokens from the seed-pinned tables, the
/// score is the scalar at that index of the score vector, and the text is
/// exactly what the codec assigns to that one id — so a fixed seed, fixed
/// input and fixed device fix the whole prediction.
pub fn predict(
    codec: &TextCodec,
    device: &DeviceHandle,
    tokens: &Vec<u32>,
    vocab_size: usize,
    hidden_size: usize,
    seed: u64,
) -> (r: Result<PredictionResult, ModelError>)
    ensures
        r == Err::<PredictionResult, ModelError>(ModelError::EmptyInput) <==> tokens@.len() == 0,
        tokens@.len() > 0 && !spec_shapes_ok(tokens@, vocab_size, hidden_size) ==> r == Err::<
            PredictionResult,
            ModelError,
        >(ModelError::PipelineError),
        r is Ok ==> spec_shapes_ok(tokens@, vocab_size, hidden_size),
        r matches Ok(p) ==> (p.token_id as nat) < vocab_size as nat,
        r matches Ok(p) ==> p.token_id == spec_selected_token(
            device.device,
            seed,
            tokens@,
            vocab_size,
            hidden_size,
        ),
        r matches Ok(p) ==> tensor_dims(p.score) == Seq::<nat>::empty() && tensor_value_bits(
            p.score,
        ) == seq![
            spec_scores(device.device, seed, tokens@, vocab_size, hidden_size)[p.token_id as int],
        ],
        r matches Ok(p) ==> decoding_of(codec.tokenizer, seq![p.token_id], false) == Some(p.text@),
        r is Err ==> r == Err::<PredictionResult, ModelError>(ModelError::EmptyInput) || r
            == Err::<PredictionResult, ModelError>(ModelError::PipelineError) || r == Err::<
            PredictionResult,
            ModelError,
        >(ModelError::CodecError),
{
    if tokens.len() == 0 {
        return Err(ModelError::EmptyInput);
    }
    if vocab_size == 0 {
        return Err(ModelError::PipelineError);
    }
    if vocab_size as u64 > u32::MAX as u64 {
        return Err(ModelError::PipelineError);
    }
    if hidden_size > 0 && vocab_size > usize::MAX / hidden_size {
        return Err(ModelError::PipelineError);
    }
    proof {
        if hidden_size > 0 {
            assert((vocab_size as int) * (hidden_size as int) <= usize::MAX as int)
                by (nonlinear_arith)
                requires
                    hidden_size as int >= 1,
                    vocab_size as int <= usize::MAX as int / (hidden_size as int),
            ;
        }
    }
    let mut k: usize = 0;
    while k < tokens.len()
        invariant
            0 <= k <= tokens@.len(),
            vocab_size >= 1,
            forall|i: int| 0 <= i < k ==> (#[trigger] tokens@[i] as nat) < vocab_size as nat,
        decreases tokens@.len() - k,
    {
        if tokens[k] as u64 >= vocab_size as u64 {
            return Err(ModelError::PipelineError);
        }
        k += 1;
    }
    let dev = &device.device;
    let seed2 = seed.wrapping_add(1);
    proof {
        assert(seed2 == projection_seed(seed));
    }
    let embeddings = match weight_table(seed, vocab_size, hidden_size, dev) {
        Ok(t) => t,
        Err(_) => {
            return Err(ModelError::PipelineError);
        },
    };
    let projection = match weight_table(seed2, hidden_size, vocab_size, dev) {
        Ok(t) => t,
        Err(_) => {
            return Err(ModelError::PipelineError);
        },
    };
    let ids = match ids_tensor(tokens, dev) {
        Ok(t) => t,
        Err(_) => {
            return Err(ModelError::PipelineError);
        },
    };
    let embedded = match index_select0(&embeddings, &ids) {
        Ok(t) => t,
        Err(_) => {
            return Err(ModelError::PipelineError);
        },
    };
    let pooled = match mean0(&embedded) {
        Ok(t) => t,
        Err(_) => {
            return Err(ModelError::PipelineError);
        },
    };
    let pooled_row = match unsqueeze0(&pooled) {
        Ok(t) => t,
        Err(_) => {
            return Err(ModelError::PipelineError);
        },
    };
    let logits_row = match matmul2(&pooled_row, &projection) {
        Ok(t) => t,
        Err(_) => {
            return Err(ModelError::PipelineError);
        },
    };
    let logits = match squeeze0(&logits_row) {
        Ok(t) => t,
        Err(_) => {
            return Err(ModelError::PipelineError);
        },
    };
    proof {
        assert(tensor_value_bits(logits) == spec_scores(
            device.device,
            seed,
            tokens@,
            vocab_size,
            hidden_size,
        ));
    }
    let best = match argmax0(&logits) {
        Ok(t) => t,
        Err(_) => {
            return Err(ModelError::PipelineError);
        },
    };
    let token_id = match to_scalar_u32(&best) {
        Ok(v) => v,
        Err(_) => {
            return Err(ModelError::PipelineError);
        },
    };
    let score = match get1(&logits, token_id as usize) {
        Ok(t) => t,
        Err(_) => {
            return Err(ModelError::PipelineError);
        },
    };
    let mut id_vec: Vec<u32> = Vec::new();
    id_vec.push(token_id);
    proof {
        assert(id_vec@ =~= seq![token_id]);
    }
    let text = match codec.decode(&id_vec, false) {
        Ok(s) => s,
        Err(e) => {
            return Err(e);
        },
    };
    Ok(PredictionResult { token_id, score, text })
}

/// The toy weights are deterministic: two tables drawn with the same seed
/// and the same shape hold the same values, so repeated predictions with
/// one seed run over identical weights.
pub proof fn lemma_weights_deterministic(
    seed: u64,
    count: usize,
    a: candle_core::Tensor,
    b: candle_core::Tensor,
)
    requires
        tensor_value_bits(a) == normal_table_bits(seed, count),
        tensor_value_bits(b) == normal_table_bits(seed, count),
    ensures
        tensor_value_bits(a) == tensor_value_bits(b),
{
}

/// A prediction is deterministic for a fixed seed: on one device, two
/// successful predictions over the same tokens, table sizes and seed select
/// the same token and hold the same score value.
pub proof fn lemma_prediction_deterministic(
    dev: candle_core::Device,
    seed: u64,
    tokens: Seq<u32>,
    vocab_size: usize,
    hidden_size: usize,
    first: PredictionResult,
    second: PredictionResult,
)
    requires
        first.token_id == spec_selected_token(dev, seed, tokens, vocab_size, hidden_size),
        second.token_id == spec_selected_token(dev, seed, tokens, vocab_size, hidden_size),
        tensor_value_bits(first.score) == seq![
            spec_scores(dev, seed, tokens, vocab_size, hidden_size)[first.token_id as int],
        ],
        tensor_value_bits(second.score) == seq![
            spec_scores(dev, seed, tokens, vocab_size, hidden_size)[second.token_id as int],
        ],
    ensures
        first.token_id == second.token_id,
        tensor_value_bits(first.score) == tensor_value_bits(second.score),
{
}

} // verus!
