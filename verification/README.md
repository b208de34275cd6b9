# dcap-rs

Parsing and encoding for Intel DCAP attestation: quotes, TCB information and
its fixed-layout (POD) form, the output of a verification, and the account
addresses of the on-chain PCCS program. The library under `src/` is written
in Verus and proved against its contracts.

- `src/types/quote.rs`: reading a quote (header, SGX/TDX report body,
  signature data) from bytes, with the cursor and every error stated.
- `src/types/tcb_info.rs`: TCB information as values.
- `src/types/pod/`: the fixed-layout form of TCB information, the conversions
  both ways, and the laws that one undoes the other (`laws.rs`).
- `src/types/mod.rs`: the byte layout of a verification's output.
- `src/solana.rs`: enclave identity types, certificate authorities and the
  program-derived addresses of their accounts.
- `src/bytes.rs`: NUL-padded byte fields and their text.
- `src/trusted.rs`: the calls into std and outside crates, with the contracts
  the proofs rest on.

`app/` holds what stays outside the proofs: the serde forms of the JSON
collateral, the X.509 collateral, the Borsh account types and the RPC client.
