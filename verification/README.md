# systemd_swap autoconfiguration

A verified library that decides the swap layout of a machine (zram only, or
zram plus pre-allocated swap files) from a few probed facts, and renders the
decision as the configuration keys a swap daemon reads.

- `src/autoconfig.rs`: capabilities, the decision, the injected key-value
  pairs, and the laws proved of them.
- `src/decimal.rs`: base-ten rendering of integers, proved against its
  definition.
- `src/defaults.rs`: default values of every configuration key.
- `app/`: probing of the running machine (mount table, statvfs, sysinfo).
