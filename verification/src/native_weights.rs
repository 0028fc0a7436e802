//! Native plans bound to the stored tensors of an artifact.
//!
//! A plan names every tensor that it uploads, checks it against the artifact, and counts
//! its bytes. What only a kernel can derive is an argument.

use crate::error::Error;
use crate::gguf::{VerifiedArtifact, VerifiedTensor};
use crate::matrix;
use crate::matrix::{MatrixHeader, RowFormat};
use crate::native_demand::DeviceByteDemand;
use crate::native_plan;
use crate::native_plan::{NativeKvExtents, ProjectionWeightBytes};
use crate::native_session::{F32Parameter, ProjectionWeight};
use crate::payload;
use crate::qwen35::{
    Qwen35StructuralProfile, ATTN_K_NORM_ROLE, ATTN_K_ROLE, ATTN_NORM_ROLE, ATTN_OUTPUT_ROLE,
    ATTN_Q_NORM_ROLE, ATTN_Q_ROLE, ATTN_V_ROLE, FFN_DOWN_ROLE, FFN_GATE_ROLE, FFN_UP_ROLE,
    POST_ATTENTION_NORM_ROLE,
};
use crate::qwen35_execution;
use crate::qwen35_execution::{block_name, read_f32, Layout};
use crate::text;
use vstd::prelude::*;

verus! {

/// The serialized length of a row of one width in one storage format.
#[derive(Clone, Copy, Debug, PartialEq, Eq, Structural)]
pub struct RowLength {
    pub format: RowFormat,
    pub width: usize,
    pub bytes: usize,
}

/// The serialized length of a row, if the table has one.
pub open spec fn row_length(table: Seq<RowLength>, format: RowFormat, width: usize) -> Option<usize>
    decreases table.len(),
{
    if table.len() == 0 {
        None
    } else if table[0].format == format && table[0].width == width {
        Some(table[0].bytes)
    } else {
        row_length(table.drop_first(), format, width)
    }
}

/// Look up the serialized length of a row.
pub fn find_row_length(table: &[RowLength], format: RowFormat, width: usize) -> (bytes: Option<
    usize,
>)
    ensures
        bytes == row_length(table@, format, width),
{
    let mut i: usize = 0;
    assert(table@.skip(0) =~= table@);
    while i < table.len()
        invariant
            0 <= i <= table@.len(),
            row_length(table@, format, width) == row_length(table@.skip(i as int), format, width),
        decreases table@.len() - i,
    {
        assert(table@.skip(i as int)[0] == table@[i as int]);
        if table[i].format == format && table[i].width == width {
            return Some(table[i].bytes);
        }
        assert(table@.skip(i as int).drop_first() =~= table@.skip(i + 1));
        i = i + 1;
    }
    None
}

/// Whether a weight is the stored matrix of a name.
pub open spec fn matrix_bound(
    artifact: VerifiedArtifact,
    table: Seq<RowLength>,
    name: Seq<char>,
    weight: ProjectionWeight,
) -> bool {
    &&& weight.name@ == name
    &&& exists|tensor: VerifiedTensor<'_>| #[trigger]
        payload::found(artifact, name, tensor) && {
            let dims = tensor.descriptor.dims@;
            &&& dims.len() == 2
            &&& weight.width == dims[0]
            &&& weight.rows == dims[1]
            &&& weight.serialized_bytes == tensor.bytes@.len()
            &&& matrix::format_of(tensor.descriptor.ggml_type) matches Some(format)
            &&& row_length(table, format, weight.width) matches Some(row)
            &&& weight.serialized_bytes == weight.rows * row
        }
}

/// Whether the stored matrix of a name is refused with an error.
pub open spec fn matrix_refused(
    artifact: VerifiedArtifact,
    table: Seq<RowLength>,
    name: Seq<char>,
    error: Error,
) -> bool {
    ||| matrix::header_refused(artifact, name, error)
    ||| exists|tensor: VerifiedTensor<'_>| #[trigger]
        payload::found(artifact, name, tensor) && {
            let dims = tensor.descriptor.dims@;
            &&& dims.len() == 2
            &&& dims[0] <= usize::MAX
            &&& dims[1] <= usize::MAX
            &&& matrix::format_of(tensor.descriptor.ggml_type) matches Some(format)
            &&& match row_length(table, format, dims[0] as usize) {
                None => error matches Error::ProjectionLayout { name: named } && named@ == name,
                Some(row) => if dims[1] * row > usize::MAX {
                    error == (Error::ArithmeticOverflow {
                        context: "row projection payload byte length",
                    })
                } else {
                    &&& tensor.bytes@.len() != dims[1] * row
                    &&& error matches Error::ProjectionBytes { name: named, expected, actual }
                    &&& named@ == name
                    &&& expected == dims[1] * row
                    &&& actual == tensor.bytes@.len()
                },
            }
        }
}

/// Bind a stored matrix that a native plan uploads.
pub fn projection(artifact: &VerifiedArtifact, table: &[RowLength], name: String) -> (weight:
    Result<ProjectionWeight, Error>)
    ensures
        match weight {
            Ok(weight) => matrix_bound(*artifact, table@, name@, weight),
            Err(error) => matrix_refused(*artifact, table@, name@, error),
        },
{
    let header = MatrixHeader::from_payload(artifact, name.as_str())?;
    let row_bytes: Option<usize> = find_row_length(table, header.format, header.input_width);
    assert(payload::found(*artifact, name@, header.tensor));
    let matrix = header.with_row_bytes(row_bytes)?;
    Ok(
        ProjectionWeight {
            name,
            rows: matrix.header.output_width,
            width: matrix.header.input_width,
            serialized_bytes: matrix.header.tensor.bytes.len(),
        },
    )
}

/// Whether a parameter is the finite stored `f32` tensor of a name and a shape.
pub open spec fn parameter_bound(
    artifact: VerifiedArtifact,
    name: Seq<char>,
    dims: Seq<u64>,
    parameter: F32Parameter,
) -> bool {
    &&& parameter.name@ == name
    &&& exists|values: Seq<u32>|
        {
            &&& #[trigger] qwen35_execution::parameter_words(artifact, name, dims, values)
            &&& qwen35_execution::all_finite(values)
            &&& values.len() == parameter.elements
        }
}

/// Bind a stored `f32` parameter that a native plan uploads.
pub fn f32_parameter(
    artifact: &VerifiedArtifact,
    name: String,
    dims: &[u64],
    elements: usize,
) -> (parameter: Result<F32Parameter, Error>)
    ensures
        match parameter {
            Ok(parameter) => {
                &&& parameter.elements == elements
                &&& parameter_bound(*artifact, name@, dims@, parameter)
            },
            Err(error) => qwen35_execution::read_refused(
                *artifact,
                name@,
                dims@,
                elements,
                error,
            ),
        },
{
    let values = read_f32(artifact, name.as_str(), dims, elements)?;
    assert(qwen35_execution::parameter_words(*artifact, name@, dims@, values@));
    Ok(F32Parameter { name, elements })
}

/// Whether weights are the stored matrices of a block's roles, in order.
pub open spec fn matrices_bound(
    artifact: VerifiedArtifact,
    table: Seq<RowLength>,
    block: usize,
    roles: Seq<&'static str>,
    weights: Seq<ProjectionWeight>,
) -> bool {
    &&& weights.len() == roles.len()
    &&& forall|i: int|
        0 <= i < roles.len() ==> matrix_bound(
            artifact,
            table,
            text::block_name_spec(block as nat, roles[i]@),
            #[trigger] weights[i],
        )
}

/// Whether the stored matrix of a role is the first of a block's that is refused.
pub open spec fn first_matrix_refused(
    artifact: VerifiedArtifact,
    table: Seq<RowLength>,
    block: usize,
    roles: Seq<&'static str>,
    index: int,
    error: Error,
) -> bool {
    &&& 0 <= index < roles.len()
    &&& matrix_refused(
        artifact,
        table,
        text::block_name_spec(block as nat, roles[index]@),
        error,
    )
    &&& exists|weights: Seq<ProjectionWeight>| #[trigger]
        matrices_bound(artifact, table, block, roles.take(index), weights)
}

/// Bind the stored matrices of a block's roles, in order.
pub fn bind_matrices(
    artifact: &VerifiedArtifact,
    table: &[RowLength],
    block: usize,
    roles: &[&'static str],
) -> (weights: Result<Vec<ProjectionWeight>, Error>)
    ensures
        match weights {
            Ok(weights) => matrices_bound(*artifact, table@, block, roles@, weights@),
            Err(error) => exists|index: int| #[trigger]
                first_matrix_refused(*artifact, table@, block, roles@, index, error),
        },
{
    let mut weights: Vec<ProjectionWeight> = Vec::new();
    let mut i: usize = 0;
    while i < roles.len()
        invariant
            0 <= i <= roles@.len(),
            matrices_bound(*artifact, table@, block, roles@.take(i as int), weights@),
        decreases roles@.len() - i,
    {
        match projection(artifact, table, block_name(block, roles[i])) {
            Ok(weight) => {
                weights.push(weight);
            },
            Err(error) => {
                assert(first_matrix_refused(*artifact, table@, block, roles@, i as int, error));
                return Err(error);
            },
        }
        proof {
            let longer = roles@.take(i + 1);
            assert forall|j: int| 0 <= j < longer.len() implies matrix_bound(
                *artifact,
                table@,
                text::block_name_spec(block as nat, longer[j]@),
                #[trigger] weights@[j],
            ) by {
                if j < i {
                    assert(longer[j] == roles@.take(i as int)[j]);
                }
            }
        }
        i = i + 1;
    }
    assert(roles@.take(i as int) =~= roles@);
    Ok(weights)
}

/// The role and the shape of a stored parameter of a block.
#[derive(Debug)]
pub struct ParameterRole {
    pub role: &'static str,
    pub dims: Vec<u64>,
    pub elements: usize,
}

/// What a stored parameter of a block is: its role, its shape, and its elements.
pub struct ParameterShape {
    pub role: &'static str,
    pub dims: Seq<u64>,
    pub elements: usize,
}

impl View for ParameterRole {
    type V = ParameterShape;

    open spec fn view(&self) -> ParameterShape {
        ParameterShape { role: self.role, dims: self.dims@, elements: self.elements }
    }
}

/// What the stored parameters of a list of roles are.
pub open spec fn shapes(roles: Seq<ParameterRole>) -> Seq<ParameterShape> {
    roles.map_values(|role: ParameterRole| role@)
}

/// Whether parameters are the stored parameters of a block's roles, in order.
pub open spec fn parameters_bound(
    artifact: VerifiedArtifact,
    block: usize,
    roles: Seq<ParameterShape>,
    parameters: Seq<F32Parameter>,
) -> bool {
    &&& parameters.len() == roles.len()
    &&& forall|i: int|
        0 <= i < roles.len() ==> {
            &&& (#[trigger] parameters[i]).elements == roles[i].elements
            &&& parameter_bound(
                artifact,
                text::block_name_spec(block as nat, roles[i].role@),
                roles[i].dims,
                parameters[i],
            )
        }
}

/// Whether the stored parameter of a role is the first of a block's that is refused.
pub open spec fn first_parameter_refused(
    artifact: VerifiedArtifact,
    block: usize,
    roles: Seq<ParameterShape>,
    index: int,
    error: Error,
) -> bool {
    &&& 0 <= index < roles.len()
    &&& qwen35_execution::read_refused(
        artifact,
        text::block_name_spec(block as nat, roles[index].role@),
        roles[index].dims,
        roles[index].elements,
        error,
    )
    &&& exists|parameters: Seq<F32Parameter>| #[trigger]
        parameters_bound(artifact, block, roles.take(index), parameters)
}

/// Bind the stored parameters of a block's roles, in order.
pub fn bind_parameters(
    artifact: &VerifiedArtifact,
    block: usize,
    roles: &[ParameterRole],
) -> (parameters: Result<Vec<F32Parameter>, Error>)
    ensures
        match parameters {
            Ok(parameters) => parameters_bound(*artifact, block, shapes(roles@), parameters@),
            Err(error) => exists|index: int| #[trigger]
                first_parameter_refused(*artifact, block, shapes(roles@), index, error),
        },
{
    let ghost models = shapes(roles@);
    let mut parameters: Vec<F32Parameter> = Vec::new();
    let mut i: usize = 0;
    while i < roles.len()
        invariant
            0 <= i <= roles@.len(),
            models == shapes(roles@),
            parameters_bound(*artifact, block, models.take(i as int), parameters@),
        decreases roles@.len() - i,
    {
        assert(models[i as int] == roles@[i as int]@);
        match f32_parameter(
            artifact,
            block_name(block, roles[i].role),
            roles[i].dims.as_slice(),
            roles[i].elements,
        ) {
            Ok(parameter) => {
                parameters.push(parameter);
            },
            Err(error) => {
                assert(first_parameter_refused(*artifact, block, models, i as int, error));
                return Err(error);
            },
        }
        proof {
            let longer = models.take(i + 1);
            assert forall|j: int| 0 <= j < longer.len() implies {
                &&& (#[trigger] parameters@[j]).elements == longer[j].elements
                &&& parameter_bound(
                    *artifact,
                    text::block_name_spec(block as nat, longer[j].role@),
                    longer[j].dims,
                    parameters@[j],
                )
            } by {
                if j < i {
                    assert(longer[j] == models.take(i as int)[j]);
                }
            }
        }
        i = i + 1;
    }
    assert(models.take(i as int) =~= models);
    Ok(parameters)
}

/// A parameter of one dimension.
pub open spec fn vector_shape(role: &'static str, width: usize) -> ParameterShape {
    ParameterShape { role, dims: seq![width as u64], elements: width }
}

/// Name a parameter of one dimension.
pub fn vector_role(role: &'static str, width: usize) -> (parameter: ParameterRole)
    ensures
        parameter@ == vector_shape(role, width),
{
    let parameter = ParameterRole { role, dims: vec![width as u64], elements: width };
    assert(parameter.dims@ =~= seq![width as u64]);
    parameter
}

/// The matrices of a full-attention block and its tail, in order.
pub open spec fn full_matrix_roles() -> Seq<&'static str> {
    seq![
        ATTN_Q_ROLE,
        ATTN_K_ROLE,
        ATTN_V_ROLE,
        ATTN_OUTPUT_ROLE,
        FFN_GATE_ROLE,
        FFN_UP_ROLE,
        FFN_DOWN_ROLE,
    ]
}

/// The normalization vectors of a full-attention block and its tail, in order.
pub open spec fn full_norm_shapes(layout: Layout) -> Seq<ParameterShape> {
    seq![
        vector_shape(ATTN_NORM_ROLE, layout.hidden),
        vector_shape(ATTN_Q_NORM_ROLE, layout.key),
        vector_shape(ATTN_K_NORM_ROLE, layout.key),
        vector_shape(POST_ATTENTION_NORM_ROLE, layout.hidden),
    ]
}

/// The serialized bytes of the seven matrices of a full-attention block.
pub open spec fn projection_bytes(weights: Seq<ProjectionWeight>) -> ProjectionWeightBytes {
    ProjectionWeightBytes {
        q_gate: weights[0].serialized_bytes,
        key: weights[1].serialized_bytes,
        value: weights[2].serialized_bytes,
        output: weights[3].serialized_bytes,
        ffn_gate: weights[4].serialized_bytes,
        ffn_up: weights[5].serialized_bytes,
        ffn_down: weights[6].serialized_bytes,
    }
}

/// Checked geometry, stored tensors, and byte demand of one full-attention block session.
#[derive(Debug)]
pub struct DeviceFullAttentionPlan {
    pub layout: Layout,
    pub block: usize,
    pub matrices: Vec<ProjectionWeight>,
    pub scalars: Vec<F32Parameter>,
    pub kv: NativeKvExtents,
    pub bytes: DeviceByteDemand,
}

/// What only kernels can derive of a full-attention block session: the lengths of
/// serialized rows, the paged cache, and the numerical status.
#[derive(Clone, Copy, Debug)]
pub struct BlockKernels<'rows> {
    pub rows: &'rows [RowLength],
    pub kv: NativeKvExtents,
    pub numerical_status: usize,
}

impl DeviceFullAttentionPlan {
    /// Whether a block of a layout is refused with an error: it is no admitted
    /// full-attention block, or its first matrix or parameter that cannot be bound
    /// refuses, or its byte demand cannot be represented.
    pub open spec fn refused(
        artifact: VerifiedArtifact,
        layout: Layout,
        block: usize,
        kernels: BlockKernels<'_>,
        error: Error,
    ) -> bool {
        let table = kernels.rows@;
        let roles = full_matrix_roles();
        let norms = full_norm_shapes(layout);
        if block >= layout.main_blocks || !layout.full(block as int) {
            error == (Error::NativeSessionState {
                rule: "native plan requires an admitted full-attention main block",
            })
        } else {
            ||| exists|index: int| #[trigger]
                first_matrix_refused(artifact, table, block, roles, index, error)
            ||| exists|weights: Seq<ProjectionWeight>| #[trigger]
                matrices_bound(artifact, table, block, roles, weights) && {
                    ||| exists|index: int| #[trigger]
                        first_parameter_refused(artifact, block, norms, index, error)
                    ||| {
                        &&& exists|parameters: Seq<F32Parameter>| #[trigger]
                            parameters_bound(artifact, block, norms, parameters)
                        &&& native_plan::block_failure(
                            layout,
                            projection_bytes(weights),
                            kernels.kv,
                        ) == Some(error)
                    }
                }
        }
    }

    /// Whether the plan is that of a full-attention block of a layout.
    pub open spec fn plans(
        self,
        artifact: VerifiedArtifact,
        layout: Layout,
        block: usize,
        kernels: BlockKernels<'_>,
    ) -> bool {
        let matrices = projection_bytes(self.matrices@);
        &&& block < layout.main_blocks
        &&& layout.full(block as int)
        &&& self.layout == layout
        &&& self.block == block
        &&& self.kv == kernels.kv
        &&& matrices_bound(artifact, kernels.rows@, block, full_matrix_roles(), self.matrices@)
        &&& parameters_bound(artifact, block, full_norm_shapes(layout), self.scalars@)
        &&& native_plan::block_failure(layout, matrices, kernels.kv) is None
        &&& native_plan::block_demand(
            layout,
            matrices,
            kernels.kv,
            kernels.numerical_status,
            self.bytes,
        )
    }

    /// Bind one full-attention main block of an artifact to its stored tensors and derive
    /// its byte demand. Nothing is allocated on a device.
    pub fn from_weights(
        profile: &Qwen35StructuralProfile<'_>,
        artifact: &VerifiedArtifact,
        block: usize,
        max_context: usize,
        kernels: BlockKernels<'_>,
    ) -> (plan: Result<DeviceFullAttentionPlan, Error>)
        ensures
            ({
                let metadata = profile.artifact().metadata@;
                let dimensions = profile.spec_dimensions().execution_dimensions_spec();
                let failure = qwen35_execution::layout_failure(metadata, dimensions, max_context);
                match plan {
                    Ok(plan) => {
                        &&& failure is None
                        &&& plan.layout.describes(metadata, dimensions, max_context)
                        &&& plan.plans(*artifact, plan.layout, block, kernels)
                    },
                    Err(error) => if failure is Some {
                        failure == Some(error)
                    } else {
                        exists|layout: Layout| #[trigger]
                            layout.describes(metadata, dimensions, max_context) && Self::refused(
                                *artifact,
                                layout,
                                block,
                                kernels,
                                error,
                            )
                    },
                }
            }),
    {
        let layout = Layout::from_metadata(profile, max_context)?;
        assert(layout.describes(
            profile.artifact().metadata@,
            profile.spec_dimensions().execution_dimensions_spec(),
            max_context,
        ));
        Self::from_layout(artifact, layout, block, kernels)
    }

    /// Bind one full-attention main block of a layout.
    pub fn from_layout(
        artifact: &VerifiedArtifact,
        layout: Layout,
        block: usize,
        kernels: BlockKernels<'_>,
    ) -> (plan: Result<DeviceFullAttentionPlan, Error>)
        requires
            layout.full_interval > 0,
        ensures
            match plan {
                Ok(plan) => plan.plans(*artifact, layout, block, kernels),
                Err(error) => Self::refused(*artifact, layout, block, kernels, error),
            },
    {
        if !layout.is_admitted_full_block(block) {
            return Err(
                Error::NativeSessionState {
                    rule: "native plan requires an admitted full-attention main block",
                },
            );
        }
        let roles: [&'static str; 7] = [
            ATTN_Q_ROLE,
            ATTN_K_ROLE,
            ATTN_V_ROLE,
            ATTN_OUTPUT_ROLE,
            FFN_GATE_ROLE,
            FFN_UP_ROLE,
            FFN_DOWN_ROLE,
        ];
        assert(roles@ =~= full_matrix_roles());
        let matrices = bind_matrices(artifact, kernels.rows, block, &roles)?;
        let norms: [ParameterRole; 4] = [
            vector_role(ATTN_NORM_ROLE, layout.hidden),
            vector_role(ATTN_Q_NORM_ROLE, layout.key),
            vector_role(ATTN_K_NORM_ROLE, layout.key),
            vector_role(POST_ATTENTION_NORM_ROLE, layout.hidden),
        ];
        assert(shapes(norms@) =~= full_norm_shapes(layout));
        assert(matrices_bound(
            *artifact,
            kernels.rows@,
            block,
            full_matrix_roles(),
            matrices@,
        ));
        let scalars = bind_parameters(artifact, block, &norms)?;
        assert(parameters_bound(*artifact, block, full_norm_shapes(layout), scalars@));
        let bytes = DeviceByteDemand::from_block(
            layout,
            ProjectionWeightBytes {
                q_gate: matrices[0].serialized_bytes,
                key: matrices[1].serialized_bytes,
                value: matrices[2].serialized_bytes,
                output: matrices[3].serialized_bytes,
                ffn_gate: matrices[4].serialized_bytes,
                ffn_up: matrices[5].serialized_bytes,
                ffn_down: matrices[6].serialized_bytes,
            },
            kernels.kv,
            kernels.numerical_status,
        )?;
        Ok(
            DeviceFullAttentionPlan {
                layout,
                block,
                matrices,
                scalars,
                kv: kernels.kv,
                bytes,
            },
        )
    }
}

} // verus!
