# tuxedo_control

Fan and performance control for TUXEDO laptops on Uniwill boards, over `/dev/tuxedo_io`.

The library under `src/` holds everything that decides: request numbers and duty scaling, the
guard that keeps unvalidated boards read-only, fan curves and the safety floor, the control
loop, profiles, the socket protocol, and what the three front ends show and do. It is written
in Verus; each function carries a contract, and the properties that span functions are proved
as public proof functions next to the functions they speak of.

| Module | What it holds |
|---|---|
| `ioctl`, `scale`, `perf` | request numbers, percent and raw duty, performance profiles |
| `device`, `sim` | the EC handle with its write guard, and a simulated EC |
| `curve`, `control` | interpolation, safety floor, smoothing, hysteresis, deadband, one tick |
| `profiles`, `config`, `startup` | the profile store, the configuration, start and stop |
| `shared`, `sysfs`, `server` | daemon state, backlight and charging files, the protocol |
| `gui`, `editor`, `tui`, `prober` | the decisions of the window, the curve editor, the dashboard and the prober |
| `text`, `number` | words, whitespace, integers as text |

`app/` is ordinary Rust around it: the device file, sockets, files, JSON, signals, terminal and
window. It is one program under four names: `tuxedo-controld`, `tuxedo-prober`, `tuxedo-tui`
and `tuxedo-gui`.

## The loop in short

The hotter of two temperatures is smoothed exponentially and looked up in the active profile's
curve. A falling duty is looked up some degrees hotter, and a change within the deadband is held
back. Whatever comes out, the fan never runs below the safety floor of the temperature as it was
read: 30 % from 75 °C, 45 % from 80 °C, 60 % from 85 °C and 80 % from 90 °C.
