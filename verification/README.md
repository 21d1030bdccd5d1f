# waybar-tapo

A status and control helper for a TP-Link Tapo L900 light strip. It prints one
line of Waybar JSON and keeps the credentials in the local Waybar configuration.

- `src/` is the library, verified with Verus: what to ask the strip and in which
  order, what each action changes, what the bar shows, and which steps import or
  change the configuration. Every function carries a contract; the laws that tie
  the functions together are public proof functions beside them.
- `app/` is the program around it: files, the network and the desktop.
- `tests/` run the library on concrete values.

## Commands

Running without arguments returns the status. `color` switches between white and
an 1800K-style warm orange; `warm` selects the warm color directly. The strip
accepts only 2500 to 6500 K in color-temperature mode, so 1800K is approximated
as HSV `(24, 100)`. `toggle` changes the power, and `brighter` and `dimmer`
adjust the brightness by five percentage points, between 1 and 100 percent.
Requests are serialized, so fast scrolling does not queue changes.

`--import-config PATH` installs a configuration unless there is one already;
`--set-ip ADDRESS` changes the address of the strip.

The configuration is `~/.config/waybar/tapo.json`, with mode 600:

```json
{"device_ip":"192.0.2.10","username":"you@example.com","password":"secret"}
```

## What is trusted

The contracts of three functions are taken on trust: `String::push` and
`String::from_utf8` of the standard library, and `decode` of the `STANDARD`
engine of the `base64` crate.
