# decoders

Verified structural admission, planning, and execution order of two decoder
families: bounded Qwen3 embedding and rank models, and hybrid Qwen3.5 models whose
blocks alternate between gated-delta recurrence and full attention.

`src/` is the library. It decides which artifacts are admitted, what every buffer
and device demand amounts to, in which order the stages of a step run, what each
stage accepts, and what is published when a step or a batch ends. All of it is
proved with Verus, on one trusted contract: that of `Vec::try_reserve_exact`, in
`allocation`. Values are `f32` bit patterns: the library lays them out, checks
that they are finite, and never does arithmetic on them.

`app/` computes the values. It drives the stages with floating-point kernels, a
paged key-value cache, and devices, all behind traits.

| Modules | What they hold |
| --- | --- |
| `gguf`, `payload`, `matrix` | observed artifacts and checked reads of their tensors |
| `qwen3`, `qwen3_inventory`, `qwen3_execution`, `qwen3_pass`, `qwen3_token`, `qwen3_causal` | bounded Qwen3 models, the stages of a pass and of one token, and the causality of passes |
| `qwen35`, `qwen35_inventory`, `report` | the structural preflight of hybrid artifacts |
| `qwen35_execution`, `qwen35_requirements` | execution geometry, workspaces, capacity receipts |
| `qwen35_session`, `qwen35_hybrid`, `qwen35_serial`, `qwen35_batch` | transactional sessions, what serial steps amount to, and atomic batches |
| `qwen35_attention`, `qwen35_recurrent`, `qwen35_recurrent_pass`, `qwen35_mrope`, `arrangement` | the stages of a block |
| `completion`, `native_demand`, `native_plan`, `native_weights`, `native_model`, `native_session`, `native_batch` | device ownership, plans over stored tensors, demands, and atomic native batches |
