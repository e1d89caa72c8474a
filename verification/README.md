# friendolls

The verified core of the Friendolls desktop client, written in Verus.

- `src/` is the library. Every function in it is checked by Verus against its
  `requires`/`ensures` contract. It holds the client's rules: keyboard
  accelerators, the client configuration, the browser sign-in flow, credential
  storage encoding, the refresh scheduler for account data, the friend and
  cursor projections, doll sprite recolouring, window set-up plans, the health
  watch and the real-time event routing. The calls it makes into outside
  crates (`url`, `base64`, `flate2`, `gif`, `image`) go through small trusted
  wrappers whose doc comments say what is assumed of them.
- `tests/` exercises the library on concrete values.
- `app/` is the unverified shell: files, the system keyring, serde copies of
  the library's types, floating-point screen geometry, and the loops that carry
  out what the library decides.
