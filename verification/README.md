# omarank

Hardware scoring and tier ranking for Omarchy Linux, with the anonymous survey's local
bookkeeping. The library in `src/` is verified with Verus; the program in `app/` reads
the machine, runs commands, touches the file system and prints. It leaves the decisions
to the library, except for what is computed in floating point: the highest reported CPU
clock and the conversion of reported doubles (refresh rates, scale factors) into the
library's integer values.

- `text`, `fields`: the string handling everything else is stated over (cleaning names,
  trimming, lines, fields, words, numbers).
- `gpu`, `board`, `system`, `json`: what `nvidia-smi`, `lspci`, `inxi`, `hyprctl` and the
  files under `/proc`, `/sys` and `/etc` say of the machine.
- `hardware`, `score`: the hardware profile, the six component scores, the weighted total
  and its tier.
- `report`: score bars, the tier ladder and the status-bar text.
- `survey`, `submit`: where the survey state lives, the state machines that load and save
  it safely, the submitted profile and the order in which endpoints are tried.
