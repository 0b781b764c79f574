# squid_n_element

The element layer of a structural analysis program: from a model's element
data it decides which element behaviour is built (elastic member, member with
end springs, fiber member, wall, joint panel, ...), checks the inputs that a
nonlinear analysis needs, numbers the degrees of freedom, and keeps element
states across trial, commit and revert.

## Layout

- `src/` — the verified library. Every rule of the element layer is stated
  as a contract over plain values and proved by Verus:
  - `factory`, `regime`, `hinge_view` — which behaviour and which nonlinear
    model an element gets, and which hinge characteristics are shown for it;
  - `hysteresis`, `fiber` — hysteresis rules, spring and fiber material laws,
    fiber layouts and the yield strengths their regions take;
  - `input_check` — the settings under which a member's strength cannot be
    computed, with their messages;
  - `dof`, `panel_offset`, `end_release`, `torsion` — equation numbers,
    members joined to joint panels, end releases and their static
    condensation, torsion releases;
  - `rigid_zone`, `stiffness_factors`, `slab_cooperation`, `misc_wall` —
    automatic rigid zones and which stiffness increases apply;
  - `staged`, `snapshot` — trial/committed state and checked snapshots.
- `tests/` — tests of the library on concrete values.
- `app/` — the floating-point part (stiffness, mass, internal forces,
  strengths, section integration) and the adapters from the model types to
  the library's plain values.
