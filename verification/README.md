# rumcake

The logic of a mechanical keyboard firmware, verified with Verus.

- `src/layout.rs`, `src/action.rs`, `src/key_code.rs`: the layout state machine that turns key
  events and ticks into key codes (layers, hold-tap, one-shot, tap-dance, sequences); its
  mathematical model is in `src/model.rs`, together with the laws proved of it.
- `src/queues.rs`: the fixed-capacity ring buffers the layout keeps its queues in.
- `src/backlight/`: backlight configurations, the commands that change them, effect cycling,
  the extent of a lighting matrix and the presses remembered by reactive effects.
- `src/hw/`: output switching between USB and Bluetooth, analog multiplexers, clock helpers.
- `src/keyboard.rs`, `src/matrix.rs`: custom key codes, rotary encoders, analog matrices.
- `src/bluetooth/`, `src/display/`, `src/drivers/`: small device descriptions (advertising data,
  PnP id, LED positions, display orientation).
- `src/templates.rs`: rendering item templates per enum variant.

`app/` holds the hardware glue that Verus does not see: GPIO matrix scanning and the adapters
from `embedded-hal` pins to the library's output lines.
