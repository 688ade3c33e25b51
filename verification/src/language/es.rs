//! Spanish strings, keyed by the English source string.
//! Anything absent here falls back to English at the call site.
use vstd::prelude::*;

use crate::text::same_text;

verus! {

/// The Spanish form of every source string this file carries.
pub open spec fn table(source: Seq<char>) -> Option<Seq<char>> {
    if source == "Play preview"@ {
        Some("Reproducir vista previa"@)
    } else if source == "Pause preview"@ {
        Some("Pausar vista previa"@)
    } else if source == "Unsaved Draft Changes"@ {
        Some("Cambios del borrador sin guardar"@)
    } else if source == "Click Apply to commit draft edits."@ {
        Some("Haz clic en Aplicar para guardar los cambios del borrador."@)
    } else if source == "Updates live while measuring"@ {
        Some("Se actualiza en directo durante la medición"@)
    } else if source == "Based on neutral transitions"@ {
        Some("Basado en transiciones neutras"@)
    } else if source == "Based on physical overlaps"@ {
        Some("Basado en solapamientos físicos"@)
    } else if source == "Shows how long each key is held and where it overlaps its opposite, live."@ {
        Some("Muestra en directo cuánto se mantiene cada tecla y cuándo se solapa con la opuesta."@)
    } else if source == "Keyboard input capture is active"@ {
        Some("La captura del teclado está activa"@)
    } else if source == "Each overlap randomly picks one of the two delays below."@ {
        Some("Cada solapamiento elige al azar uno de los dos retardos siguientes."@)
    } else if source == "Unclear input order (<1 ms), excluded from timing ranges."@ {
        Some("Orden de entrada incierto (<1 ms), excluido de los intervalos de tiempo."@)
    } else if source == "Preview"@ {
        Some("Vista previa"@)
    } else if source == "Previous example"@ {
        Some("Ejemplo anterior"@)
    } else if source == "Next example"@ {
        Some("Ejemplo siguiente"@)
    } else if source == "Game receives A + D"@ {
        Some("El juego recibe A + D"@)
    } else if source == "Game receives no direction"@ {
        Some("El juego no recibe ninguna dirección"@)
    } else if source == "Game receives A"@ {
        Some("El juego recibe A"@)
    } else if source == "Game receives D"@ {
        Some("El juego recibe D"@)
    } else if source == "Key mappings"@ {
        Some("Asignación de teclas"@)
    } else if source == "Input timings"@ {
        Some("Tiempos de entrada"@)
    } else if source == "Key Input Timeline"@ {
        Some("Línea de tiempo de teclas"@)
    } else if source == "Input timing measurement"@ {
        Some("Medición de tiempos"@)
    } else if source == "Measured Input Transitions"@ {
        Some("Latencias medidas por eje"@)
    } else if source == "Suggested delays"@ {
        Some("Ajustes SOCD sugeridos"@)
    } else if source == "Hardware scan codes the SOCD filter uses"@ {
        Some("Códigos físicos usados por el filtro SOCD"@)
    } else if source == "How opposite-direction overlaps resolve."@ {
        Some("Cómo se resuelven las pulsaciones opuestas."@)
    } else if source == "Restore mapping defaults"@ {
        Some("Restaurar asignación"@)
    } else if source == "Restore timing defaults"@ {
        Some("Restaurar tiempos"@)
    } else if source == "Restore all defaults"@ {
        Some("Restaurar todo"@)
    } else if source == "Revert"@ {
        Some("Revertir"@)
    } else if source == "Apply"@ {
        Some("Aplicar"@)
    } else if source == "Profile Slots"@ {
        Some("Ranuras de perfil"@)
    } else if source == "Profiles"@ {
        Some("Perfiles"@)
    } else if source == "Profile"@ {
        Some("Perfil"@)
    } else if source == "Language"@ {
        Some("Idioma"@)
    } else if source == "Rename"@ {
        Some("Renombrar"@)
    } else if source == "Load"@ {
        Some("Cargar"@)
    } else if source == "Cancel"@ {
        Some("Cancelar"@)
    } else if source == "Close"@ {
        Some("Cerrar"@)
    } else if source == "Profile name"@ {
        Some("Nombre del perfil"@)
    } else if source == "Changes are saved when you click Apply."@ {
        Some("Los cambios se guardan al pulsar Aplicar."@)
    } else if source == "Load a slot to activate it immediately. Apply saves edits to the active slot."@ {
        Some("Cargar activa el perfil de inmediato. Aplicar guarda los cambios en el perfil activo."@)
    } else if source == "Load this slot?"@ {
        Some("¿Cargar este perfil?"@)
    } else if source == "Unapplied draft changes will be discarded."@ {
        Some("Los cambios no aplicados se descartarán."@)
    } else if source == "Loading and activating profile…"@ {
        Some("Cargando y activando el perfil…"@)
    } else if source == "Saving profile name…"@ {
        Some("Guardando el nombre…"@)
    } else if source == "Profile loaded and activated."@ {
        Some("Perfil cargado y activado."@)
    } else if source == "Profile renamed."@ {
        Some("Perfil renombrado."@)
    } else if source == "Active"@ {
        Some("Activo"@)
    } else if source == "Updating…"@ {
        Some("Actualizando…"@)
    } else if source == "Enable the SOCD filter"@ {
        Some("Activar el filtro SOCD"@)
    } else if source == "Disable the SOCD filter"@ {
        Some("Desactivar el filtro SOCD"@)
    } else if source == "All keys uniquely assigned."@ {
        Some("Todas las teclas son únicas."@)
    } else if source == "Duplicate key bindings detected."@ {
        Some("Hay teclas duplicadas."@)
    } else if source == "UP"@ {
        Some("ARRIBA"@)
    } else if source == "DOWN"@ {
        Some("ABAJO"@)
    } else if source == "LEFT"@ {
        Some("IZQ."@)
    } else if source == "RIGHT"@ {
        Some("DER."@)
    } else if source == "Immediate"@ {
        Some("Inmediato"@)
    } else if source == "Press Delay"@ {
        Some("Retardo al pulsar"@)
    } else if source == "Random Mix"@ {
        Some("Mezcla aleatoria"@)
    } else if source == "Release Delay"@ {
        Some("Retardo al soltar"@)
    } else if source == "How it works"@ {
        Some("Cómo funciona"@)
    } else if source == "Delay Mix Ratio"@ {
        Some("Proporción de retardos"@)
    } else if source == "Press delay"@ {
        Some("Retardo al pulsar"@)
    } else if source == "Release delay"@ {
        Some("Retardo al soltar"@)
    } else if source == "New Key Press Delay"@ {
        Some("Retardo de la nueva tecla"@)
    } else if source == "Previous Key Release Delay"@ {
        Some("Retardo al soltar la anterior"@)
    } else if source == "Starting…"@ {
        Some("Iniciando…"@)
    } else if source == "Stopping…"@ {
        Some("Deteniendo…"@)
    } else if source == "Start measurement"@ {
        Some("Iniciar medición"@)
    } else if source == "Stop measurement"@ {
        Some("Detener medición"@)
    } else if source == "Reset session"@ {
        Some("Reiniciar sesión"@)
    } else if source == "Records your mapped key-pair timing for this session."@ {
        Some("Registra los tiempos de los pares de teclas de esta sesión."@)
    } else if source == "No measurement results yet."@ {
        Some("Aún no hay resultados."@)
    } else if source == "Physical key edges"@ {
        Some("Cambios de tecla"@)
    } else if source == "Valid paired samples"@ {
        Some("Muestras válidas"@)
    } else if source == "Physical overlap share"@ {
        Some("Proporción de solapamiento físico"@)
    } else if source == "Indistinguishable share"@ {
        Some("Proporción casi simultánea"@)
    } else if source == "INPUT PATTERN"@ {
        Some("PATRÓN"@)
    } else if source == "SAMPLES"@ {
        Some("MUESTRAS"@)
    } else if source == "MIN"@ {
        Some("MÍN."@)
    } else if source == "MAX"@ {
        Some("MÁX."@)
    } else if source == "Neutral transition"@ {
        Some("Transición neutra"@)
    } else if source == "Physical overlap"@ {
        Some("Solapamiento físico"@)
    } else if source == "Indistinguishable"@ {
        Some("Casi simultáneo"@)
    } else if source == "Based on P10-P50 input timings, excluding indistinguishable inputs."@ {
        Some("Rangos P10–P50 de ambos ejes, sin muestras casi simultáneas."@)
    } else if source == "Apply suggestions"@ {
        Some("Usar recomendaciones"@)
    } else if source == "Synchronized"@ {
        Some("Sincronizado"@)
    } else if source == "Settings are synchronized with the runtime."@ {
        Some("Ajustes sincronizados con el motor."@)
    } else if source == "Settings applied."@ {
        Some("Ajustes aplicados."@)
    } else if source == "Connecting to the LastKey runtime..."@ {
        Some("Conectando con el motor de LastKey…"@)
    } else if source == "Connected to the LastKey runtime."@ {
        Some("Conectado al motor de LastKey."@)
    } else if source == "The LastKey runtime is disconnected."@ {
        Some("El motor de LastKey está desconectado."@)
    } else if source == "The settings UI is waiting for LastKey.exe."@ {
        Some("Esperando a LastKey.exe."@)
    } else if source == "Request snapshot"@ {
        Some("Sincronizar"@)
    } else if source == "Applying settings..."@ {
        Some("Aplicando ajustes…"@)
    } else if source == "Mapping changed. Select Apply when ready."@ {
        Some("Asignación modificada. Pulsa Aplicar cuando estés listo."@)
    } else if source == "Recommendations written to the draft. Select Apply when ready."@ {
        Some("Recomendaciones copiadas al borrador. Pulsa Aplicar cuando estés listo."@)
    } else if source == "Detect an opposite-direction overlap."@ {
        Some("Detecta un solapamiento de teclas opuestas."@)
    } else if source == "Release the previous key output immediately."@ {
        Some("Suelta la salida de la tecla anterior de inmediato."@)
    } else if source == "Send the new key immediately. 0 ms added delay"@ {
        Some("Envía la nueva tecla de inmediato. 0 ms de retardo añadido"@)
    } else if source == "Send the new key immediately."@ {
        Some("Envía la nueva tecla de inmediato."@)
    } else if source == "Wait a random time within {range}. This gap sends no input"@ {
        Some("Espera un tiempo aleatorio dentro de {range}. Este intervalo no envía ninguna entrada"@)
    } else if source == "Send the new key once the wait ends."@ {
        Some("Envía la nueva tecla al terminar la espera."@)
    } else if source == "Wait a random time within {range}. The overlap stays live"@ {
        Some("Espera un tiempo aleatorio dentro de {range}. El solapamiento sigue activo"@)
    } else if source == "Release the previous key output once the wait ends."@ {
        Some("Suelta la salida de la tecla anterior al terminar la espera."@)
    } else if source == "Click keycap to rebind"@ {
        Some("Pulsa una tecla para reasignarla"@)
    } else if source == "Press a new key on your keyboard..."@ {
        Some("Pulsa una tecla nueva..."@)
    } else if source == "ESC Cancel"@ {
        Some("ESC Cancelar"@)
    } else {
        None
    }
}

/// The Spanish form of `source`, or `None` where this file has none.
#[verifier::rlimit(50)]
pub fn text(source: &str) -> (r: Option<&'static str>)
    ensures
        r is None <==> table(source@) is None,
        r matches Some(t) ==> table(source@) == Some(t@),
{
    if same_text(source, "Play preview") {
        return Some("Reproducir vista previa");
    }
    if same_text(source, "Pause preview") {
        return Some("Pausar vista previa");
    }
    if same_text(source, "Unsaved Draft Changes") {
        return Some("Cambios del borrador sin guardar");
    }
    if same_text(source, "Click Apply to commit draft edits.") {
        return Some("Haz clic en Aplicar para guardar los cambios del borrador.");
    }
    if same_text(source, "Updates live while measuring") {
        return Some("Se actualiza en directo durante la medición");
    }
    if same_text(source, "Based on neutral transitions") {
        return Some("Basado en transiciones neutras");
    }
    if same_text(source, "Based on physical overlaps") {
        return Some("Basado en solapamientos físicos");
    }
    if same_text(source, "Shows how long each key is held and where it overlaps its opposite, live.") {
        return Some("Muestra en directo cuánto se mantiene cada tecla y cuándo se solapa con la opuesta.");
    }
    if same_text(source, "Keyboard input capture is active") {
        return Some("La captura del teclado está activa");
    }
    if same_text(source, "Each overlap randomly picks one of the two delays below.") {
        return Some("Cada solapamiento elige al azar uno de los dos retardos siguientes.");
    }
    if same_text(source, "Unclear input order (<1 ms), excluded from timing ranges.") {
        return Some("Orden de entrada incierto (<1 ms), excluido de los intervalos de tiempo.");
    }
    if same_text(source, "Preview") {
        return Some("Vista previa");
    }
    if same_text(source, "Previous example") {
        return Some("Ejemplo anterior");
    }
    if same_text(source, "Next example") {
        return Some("Ejemplo siguiente");
    }
    if same_text(source, "Game receives A + D") {
        return Some("El juego recibe A + D");
    }
    if same_text(source, "Game receives no direction") {
        return Some("El juego no recibe ninguna dirección");
    }
    if same_text(source, "Game receives A") {
        return Some("El juego recibe A");
    }
    if same_text(source, "Game receives D") {
        return Some("El juego recibe D");
    }
    if same_text(source, "Key mappings") {
        return Some("Asignación de teclas");
    }
    if same_text(source, "Input timings") {
        return Some("Tiempos de entrada");
    }
    if same_text(source, "Key Input Timeline") {
        return Some("Línea de tiempo de teclas");
    }
    if same_text(source, "Input timing measurement") {
        return Some("Medición de tiempos");
    }
    if same_text(source, "Measured Input Transitions") {
        return Some("Latencias medidas por eje");
    }
    if same_text(source, "Suggested delays") {
        return Some("Ajustes SOCD sugeridos");
    }
    if same_text(source, "Hardware scan codes the SOCD filter uses") {
        return Some("Códigos físicos usados por el filtro SOCD");
    }
    if same_text(source, "How opposite-direction overlaps resolve.") {
        return Some("Cómo se resuelven las pulsaciones opuestas.");
    }
    if same_text(source, "Restore mapping defaults") {
        return Some("Restaurar asignación");
    }
    if same_text(source, "Restore timing defaults") {
        return Some("Restaurar tiempos");
    }
    if same_text(source, "Restore all defaults") {
        return Some("Restaurar todo");
    }
    if same_text(source, "Revert") {
        return Some("Revertir");
    }
    if same_text(source, "Apply") {
        return Some("Aplicar");
    }
    if same_text(source, "Profile Slots") {
        return Some("Ranuras de perfil");
    }
    if same_text(source, "Profiles") {
        return Some("Perfiles");
    }
    if same_text(source, "Profile") {
        return Some("Perfil");
    }
    if same_text(source, "Language") {
        return Some("Idioma");
    }
    if same_text(source, "Rename") {
        return Some("Renombrar");
    }
    if same_text(source, "Load") {
        return Some("Cargar");
    }
    if same_text(source, "Cancel") {
        return Some("Cancelar");
    }
    if same_text(source, "Close") {
        return Some("Cerrar");
    }
    if same_text(source, "Profile name") {
        return Some("Nombre del perfil");
    }
    if same_text(source, "Changes are saved when you click Apply.") {
        return Some("Los cambios se guardan al pulsar Aplicar.");
    }
    if same_text(source, "Load a slot to activate it immediately. Apply saves edits to the active slot.") {
        return Some("Cargar activa el perfil de inmediato. Aplicar guarda los cambios en el perfil activo.");
    }
    if same_text(source, "Load this slot?") {
        return Some("¿Cargar este perfil?");
    }
    if same_text(source, "Unapplied draft changes will be discarded.") {
        return Some("Los cambios no aplicados se descartarán.");
    }
    if same_text(source, "Loading and activating profile…") {
        return Some("Cargando y activando el perfil…");
    }
    if same_text(source, "Saving profile name…") {
        return Some("Guardando el nombre…");
    }
    if same_text(source, "Profile loaded and activated.") {
        return Some("Perfil cargado y activado.");
    }
    if same_text(source, "Profile renamed.") {
        return Some("Perfil renombrado.");
    }
    if same_text(source, "Active") {
        return Some("Activo");
    }
    if same_text(source, "Updating…") {
        return Some("Actualizando…");
    }
    if same_text(source, "Enable the SOCD filter") {
        return Some("Activar el filtro SOCD");
    }
    if same_text(source, "Disable the SOCD filter") {
        return Some("Desactivar el filtro SOCD");
    }
    if same_text(source, "All keys uniquely assigned.") {
        return Some("Todas las teclas son únicas.");
    }
    if same_text(source, "Duplicate key bindings detected.") {
        return Some("Hay teclas duplicadas.");
    }
    if same_text(source, "UP") {
        return Some("ARRIBA");
    }
    if same_text(source, "DOWN") {
        return Some("ABAJO");
    }
    if same_text(source, "LEFT") {
        return Some("IZQ.");
    }
    if same_text(source, "RIGHT") {
        return Some("DER.");
    }
    if same_text(source, "Immediate") {
        return Some("Inmediato");
    }
    if same_text(source, "Press Delay") {
        return Some("Retardo al pulsar");
    }
    if same_text(source, "Random Mix") {
        return Some("Mezcla aleatoria");
    }
    if same_text(source, "Release Delay") {
        return Some("Retardo al soltar");
    }
    if same_text(source, "How it works") {
        return Some("Cómo funciona");
    }
    if same_text(source, "Delay Mix Ratio") {
        return Some("Proporción de retardos");
    }
    if same_text(source, "Press delay") {
        return Some("Retardo al pulsar");
    }
    if same_text(source, "Release delay") {
        return Some("Retardo al soltar");
    }
    if same_text(source, "New Key Press Delay") {
        return Some("Retardo de la nueva tecla");
    }
    if same_text(source, "Previous Key Release Delay") {
        return Some("Retardo al soltar la anterior");
    }
    if same_text(source, "Starting…") {
        return Some("Iniciando…");
    }
    if same_text(source, "Stopping…") {
        return Some("Deteniendo…");
    }
    if same_text(source, "Start measurement") {
        return Some("Iniciar medición");
    }
    if same_text(source, "Stop measurement") {
        return Some("Detener medición");
    }
    if same_text(source, "Reset session") {
        return Some("Reiniciar sesión");
    }
    if same_text(source, "Records your mapped key-pair timing for this session.") {
        return Some("Registra los tiempos de los pares de teclas de esta sesión.");
    }
    if same_text(source, "No measurement results yet.") {
        return Some("Aún no hay resultados.");
    }
    if same_text(source, "Physical key edges") {
        return Some("Cambios de tecla");
    }
    if same_text(source, "Valid paired samples") {
        return Some("Muestras válidas");
    }
    if same_text(source, "Physical overlap share") {
        return Some("Proporción de solapamiento físico");
    }
    if same_text(source, "Indistinguishable share") {
        return Some("Proporción casi simultánea");
    }
    if same_text(source, "INPUT PATTERN") {
        return Some("PATRÓN");
    }
    if same_text(source, "SAMPLES") {
        return Some("MUESTRAS");
    }
    if same_text(source, "MIN") {
        return Some("MÍN.");
    }
    if same_text(source, "MAX") {
        return Some("MÁX.");
    }
    if same_text(source, "Neutral transition") {
        return Some("Transición neutra");
    }
    if same_text(source, "Physical overlap") {
        return Some("Solapamiento físico");
    }
    if same_text(source, "Indistinguishable") {
        return Some("Casi simultáneo");
    }
    if same_text(source, "Based on P10-P50 input timings, excluding indistinguishable inputs.") {
        return Some("Rangos P10–P50 de ambos ejes, sin muestras casi simultáneas.");
    }
    if same_text(source, "Apply suggestions") {
        return Some("Usar recomendaciones");
    }
    if same_text(source, "Synchronized") {
        return Some("Sincronizado");
    }
    if same_text(source, "Settings are synchronized with the runtime.") {
        return Some("Ajustes sincronizados con el motor.");
    }
    if same_text(source, "Settings applied.") {
        return Some("Ajustes aplicados.");
    }
    if same_text(source, "Connecting to the LastKey runtime...") {
        return Some("Conectando con el motor de LastKey…");
    }
    if same_text(source, "Connected to the LastKey runtime.") {
        return Some("Conectado al motor de LastKey.");
    }
    if same_text(source, "The LastKey runtime is disconnected.") {
        return Some("El motor de LastKey está desconectado.");
    }
    if same_text(source, "The settings UI is waiting for LastKey.exe.") {
        return Some("Esperando a LastKey.exe.");
    }
    if same_text(source, "Request snapshot") {
        return Some("Sincronizar");
    }
    if same_text(source, "Applying settings...") {
        return Some("Aplicando ajustes…");
    }
    if same_text(source, "Mapping changed. Select Apply when ready.") {
        return Some("Asignación modificada. Pulsa Aplicar cuando estés listo.");
    }
    if same_text(source, "Recommendations written to the draft. Select Apply when ready.") {
        return Some("Recomendaciones copiadas al borrador. Pulsa Aplicar cuando estés listo.");
    }
    if same_text(source, "Detect an opposite-direction overlap.") {
        return Some("Detecta un solapamiento de teclas opuestas.");
    }
    if same_text(source, "Release the previous key output immediately.") {
        return Some("Suelta la salida de la tecla anterior de inmediato.");
    }
    if same_text(source, "Send the new key immediately. 0 ms added delay") {
        return Some("Envía la nueva tecla de inmediato. 0 ms de retardo añadido");
    }
    if same_text(source, "Send the new key immediately.") {
        return Some("Envía la nueva tecla de inmediato.");
    }
    if same_text(source, "Wait a random time within {range}. This gap sends no input") {
        return Some("Espera un tiempo aleatorio dentro de {range}. Este intervalo no envía ninguna entrada");
    }
    if same_text(source, "Send the new key once the wait ends.") {
        return Some("Envía la nueva tecla al terminar la espera.");
    }
    if same_text(source, "Wait a random time within {range}. The overlap stays live") {
        return Some("Espera un tiempo aleatorio dentro de {range}. El solapamiento sigue activo");
    }
    if same_text(source, "Release the previous key output once the wait ends.") {
        return Some("Suelta la salida de la tecla anterior al terminar la espera.");
    }
    if same_text(source, "Click keycap to rebind") {
        return Some("Pulsa una tecla para reasignarla");
    }
    if same_text(source, "Press a new key on your keyboard...") {
        return Some("Pulsa una tecla nueva...");
    }
    if same_text(source, "ESC Cancel") {
        return Some("ESC Cancelar");
    }
    None
}



/// No two source strings share a Spanish translation, so no control reads as
/// another: the only strings that share one are the two spellings of a delay
/// mode's name (`Press Delay` / `Press delay`, `Release Delay` /
/// `Release delay`), which name the same thing.
#[verifier::rlimit(100)]
pub proof fn no_two_sources_share_a_translation(a: Seq<char>, b: Seq<char>)
    requires
        table(a) is Some,
        table(a) == table(b),
        a != b,
    ensures
        (a == "Press Delay"@ && b == "Press delay"@) || (a == "Press delay"@ && b == "Press Delay"@)
            || (a == "Release Delay"@ && b == "Release delay"@) || (a == "Release delay"@ && b
            == "Release Delay"@),
{
    reveal_strlit("ABAJO");
    reveal_strlit("ARRIBA");
    reveal_strlit("Activar el filtro SOCD");
    reveal_strlit("Activo");
    reveal_strlit("Actualizando…");
    reveal_strlit("Ajustes SOCD sugeridos");
    reveal_strlit("Ajustes aplicados.");
    reveal_strlit("Ajustes sincronizados con el motor.");
    reveal_strlit("Aplicando ajustes…");
    reveal_strlit("Aplicar");
    reveal_strlit("Asignación de teclas");
    reveal_strlit("Asignación modificada. Pulsa Aplicar cuando estés listo.");
    reveal_strlit("Aún no hay resultados.");
    reveal_strlit("Basado en solapamientos físicos");
    reveal_strlit("Basado en transiciones neutras");
    reveal_strlit("Cada solapamiento elige al azar uno de los dos retardos siguientes.");
    reveal_strlit("Cambios de tecla");
    reveal_strlit("Cambios del borrador sin guardar");
    reveal_strlit("Cancelar");
    reveal_strlit("Cargando y activando el perfil…");
    reveal_strlit("Cargar");
    reveal_strlit("Cargar activa el perfil de inmediato. Aplicar guarda los cambios en el perfil activo.");
    reveal_strlit("Casi simultáneo");
    reveal_strlit("Cerrar");
    reveal_strlit("Conectado al motor de LastKey.");
    reveal_strlit("Conectando con el motor de LastKey…");
    reveal_strlit("Códigos físicos usados por el filtro SOCD");
    reveal_strlit("Cómo funciona");
    reveal_strlit("Cómo se resuelven las pulsaciones opuestas.");
    reveal_strlit("DER.");
    reveal_strlit("Desactivar el filtro SOCD");
    reveal_strlit("Detecta un solapamiento de teclas opuestas.");
    reveal_strlit("Detener medición");
    reveal_strlit("Deteniendo…");
    reveal_strlit("ESC Cancelar");
    reveal_strlit("Ejemplo anterior");
    reveal_strlit("Ejemplo siguiente");
    reveal_strlit("El juego no recibe ninguna dirección");
    reveal_strlit("El juego recibe A");
    reveal_strlit("El juego recibe A + D");
    reveal_strlit("El juego recibe D");
    reveal_strlit("El motor de LastKey está desconectado.");
    reveal_strlit("Envía la nueva tecla al terminar la espera.");
    reveal_strlit("Envía la nueva tecla de inmediato.");
    reveal_strlit("Envía la nueva tecla de inmediato. 0 ms de retardo añadido");
    reveal_strlit("Espera un tiempo aleatorio dentro de {range}. El solapamiento sigue activo");
    reveal_strlit("Espera un tiempo aleatorio dentro de {range}. Este intervalo no envía ninguna entrada");
    reveal_strlit("Esperando a LastKey.exe.");
    reveal_strlit("Guardando el nombre…");
    reveal_strlit("Hay teclas duplicadas.");
    reveal_strlit("Haz clic en Aplicar para guardar los cambios del borrador.");
    reveal_strlit("IZQ.");
    reveal_strlit("Idioma");
    reveal_strlit("Iniciando…");
    reveal_strlit("Iniciar medición");
    reveal_strlit("Inmediato");
    reveal_strlit("La captura del teclado está activa");
    reveal_strlit("Latencias medidas por eje");
    reveal_strlit("Los cambios no aplicados se descartarán.");
    reveal_strlit("Los cambios se guardan al pulsar Aplicar.");
    reveal_strlit("Línea de tiempo de teclas");
    reveal_strlit("MUESTRAS");
    reveal_strlit("Medición de tiempos");
    reveal_strlit("Mezcla aleatoria");
    reveal_strlit("Muestra en directo cuánto se mantiene cada tecla y cuándo se solapa con la opuesta.");
    reveal_strlit("Muestras válidas");
    reveal_strlit("MÁX.");
    reveal_strlit("MÍN.");
    reveal_strlit("Nombre del perfil");
    reveal_strlit("Orden de entrada incierto (<1 ms), excluido de los intervalos de tiempo.");
    reveal_strlit("PATRÓN");
    reveal_strlit("Pausar vista previa");
    reveal_strlit("Perfil");
    reveal_strlit("Perfil cargado y activado.");
    reveal_strlit("Perfil renombrado.");
    reveal_strlit("Perfiles");
    reveal_strlit("Proporción casi simultánea");
    reveal_strlit("Proporción de retardos");
    reveal_strlit("Proporción de solapamiento físico");
    reveal_strlit("Pulsa una tecla nueva...");
    reveal_strlit("Pulsa una tecla para reasignarla");
    reveal_strlit("Rangos P10–P50 de ambos ejes, sin muestras casi simultáneas.");
    reveal_strlit("Ranuras de perfil");
    reveal_strlit("Recomendaciones copiadas al borrador. Pulsa Aplicar cuando estés listo.");
    reveal_strlit("Registra los tiempos de los pares de teclas de esta sesión.");
    reveal_strlit("Reiniciar sesión");
    reveal_strlit("Renombrar");
    reveal_strlit("Reproducir vista previa");
    reveal_strlit("Restaurar asignación");
    reveal_strlit("Restaurar tiempos");
    reveal_strlit("Restaurar todo");
    reveal_strlit("Retardo al pulsar");
    reveal_strlit("Retardo al soltar");
    reveal_strlit("Retardo al soltar la anterior");
    reveal_strlit("Retardo de la nueva tecla");
    reveal_strlit("Revertir");
    reveal_strlit("Se actualiza en directo durante la medición");
    reveal_strlit("Sincronizado");
    reveal_strlit("Sincronizar");
    reveal_strlit("Solapamiento físico");
    reveal_strlit("Suelta la salida de la tecla anterior al terminar la espera.");
    reveal_strlit("Suelta la salida de la tecla anterior de inmediato.");
    reveal_strlit("Tiempos de entrada");
    reveal_strlit("Todas las teclas son únicas.");
    reveal_strlit("Transición neutra");
    reveal_strlit("Usar recomendaciones");
    reveal_strlit("Vista previa");
    reveal_strlit("¿Cargar este perfil?");
    assert("ABAJO"@.len() == 5);
    assert("ARRIBA"@.len() == 6);
    assert("Activar el filtro SOCD"@.len() == 22);
    assert("Activo"@.len() == 6);
    assert("Actualizando…"@.len() == 13);
    assert("Ajustes SOCD sugeridos"@.len() == 22);
    assert("Ajustes aplicados."@.len() == 18);
    assert("Ajustes sincronizados con el motor."@.len() == 35);
    assert("Aplicando ajustes…"@.len() == 18);
    assert("Aplicar"@.len() == 7);
    assert("Asignación de teclas"@.len() == 20);
    assert("Asignación modificada. Pulsa Aplicar cuando estés listo."@.len() == 56);
    assert("Aún no hay resultados."@.len() == 22);
    assert("Basado en solapamientos físicos"@.len() == 31);
    assert("Basado en transiciones neutras"@.len() == 30);
    assert("Cada solapamiento elige al azar uno de los dos retardos siguientes."@.len() == 67);
    assert("Cambios de tecla"@.len() == 16);
    assert("Cambios del borrador sin guardar"@.len() == 32);
    assert("Cancelar"@.len() == 8);
    assert("Cargando y activando el perfil…"@.len() == 31);
    assert("Cargar"@.len() == 6);
    assert("Cargar activa el perfil de inmediato. Aplicar guarda los cambios en el perfil activo."@.len() == 85);
    assert("Casi simultáneo"@.len() == 15);
    assert("Cerrar"@.len() == 6);
    assert("Conectado al motor de LastKey."@.len() == 30);
    assert("Conectando con el motor de LastKey…"@.len() == 35);
    assert("Códigos físicos usados por el filtro SOCD"@.len() == 41);
    assert("Cómo funciona"@.len() == 13);
    assert("Cómo se resuelven las pulsaciones opuestas."@.len() == 43);
    assert("DER."@.len() == 4);
    assert("Desactivar el filtro SOCD"@.len() == 25);
    assert("Detecta un solapamiento de teclas opuestas."@.len() == 43);
    assert("Detener medición"@.len() == 16);
    assert("Deteniendo…"@.len() == 11);
    assert("ESC Cancelar"@.len() == 12);
    assert("Ejemplo anterior"@.len() == 16);
    assert("Ejemplo siguiente"@.len() == 17);
    assert("El juego no recibe ninguna dirección"@.len() == 36);
    assert("El juego recibe A"@.len() == 17);
    assert("El juego recibe A + D"@.len() == 21);
    assert("El juego recibe D"@.len() == 17);
    assert("El motor de LastKey está desconectado."@.len() == 38);
    assert("Envía la nueva tecla al terminar la espera."@.len() == 43);
    assert("Envía la nueva tecla de inmediato."@.len() == 34);
    assert("Envía la nueva tecla de inmediato. 0 ms de retardo añadido"@.len() == 58);
    assert("Espera un tiempo aleatorio dentro de {range}. El solapamiento sigue activo"@.len() == 74);
    assert("Espera un tiempo aleatorio dentro de {range}. Este intervalo no envía ninguna entrada"@.len() == 85);
    assert("Esperando a LastKey.exe."@.len() == 24);
    assert("Guardando el nombre…"@.len() == 20);
    assert("Hay teclas duplicadas."@.len() == 22);
    assert("Haz clic en Aplicar para guardar los cambios del borrador."@.len() == 58);
    assert("IZQ."@.len() == 4);
    assert("Idioma"@.len() == 6);
    assert("Iniciando…"@.len() == 10);
    assert("Iniciar medición"@.len() == 16);
    assert("Inmediato"@.len() == 9);
    assert("La captura del teclado está activa"@.len() == 34);
    assert("Latencias medidas por eje"@.len() == 25);
    assert("Los cambios no aplicados se descartarán."@.len() == 40);
    assert("Los cambios se guardan al pulsar Aplicar."@.len() == 41);
    assert("Línea de tiempo de teclas"@.len() == 25);
    assert("MUESTRAS"@.len() == 8);
    assert("Medición de tiempos"@.len() == 19);
    assert("Mezcla aleatoria"@.len() == 16);
    assert("Muestra en directo cuánto se mantiene cada tecla y cuándo se solapa con la opuesta."@.len() == 83);
    assert("Muestras válidas"@.len() == 16);
    assert("MÁX."@.len() == 4);
    assert("MÍN."@.len() == 4);
    assert("Nombre del perfil"@.len() == 17);
    assert("Orden de entrada incierto (<1 ms), excluido de los intervalos de tiempo."@.len() == 72);
    assert("PATRÓN"@.len() == 6);
    assert("Pausar vista previa"@.len() == 19);
    assert("Perfil"@.len() == 6);
    assert("Perfil cargado y activado."@.len() == 26);
    assert("Perfil renombrado."@.len() == 18);
    assert("Perfiles"@.len() == 8);
    assert("Proporción casi simultánea"@.len() == 26);
    assert("Proporción de retardos"@.len() == 22);
    assert("Proporción de solapamiento físico"@.len() == 33);
    assert("Pulsa una tecla nueva..."@.len() == 24);
    assert("Pulsa una tecla para reasignarla"@.len() == 32);
    assert("Rangos P10–P50 de ambos ejes, sin muestras casi simultáneas."@.len() == 60);
    assert("Ranuras de perfil"@.len() == 17);
    assert("Recomendaciones copiadas al borrador. Pulsa Aplicar cuando estés listo."@.len() == 71);
    assert("Registra los tiempos de los pares de teclas de esta sesión."@.len() == 59);
    assert("Reiniciar sesión"@.len() == 16);
    assert("Renombrar"@.len() == 9);
    assert("Reproducir vista previa"@.len() == 23);
    assert("Restaurar asignación"@.len() == 20);
    assert("Restaurar tiempos"@.len() == 17);
    assert("Restaurar todo"@.len() == 14);
    assert("Retardo al pulsar"@.len() == 17);
    assert("Retardo al soltar"@.len() == 17);
    assert("Retardo al soltar la anterior"@.len() == 29);
    assert("Retardo de la nueva tecla"@.len() == 25);
    assert("Revertir"@.len() == 8);
    assert("Se actualiza en directo durante la medición"@.len() == 43);
    assert("Sincronizado"@.len() == 12);
    assert("Sincronizar"@.len() == 11);
    assert("Solapamiento físico"@.len() == 19);
    assert("Suelta la salida de la tecla anterior al terminar la espera."@.len() == 60);
    assert("Suelta la salida de la tecla anterior de inmediato."@.len() == 51);
    assert("Tiempos de entrada"@.len() == 18);
    assert("Todas las teclas son únicas."@.len() == 28);
    assert("Transición neutra"@.len() == 17);
    assert("Usar recomendaciones"@.len() == 20);
    assert("Vista previa"@.len() == 12);
    assert("¿Cargar este perfil?"@.len() == 20);
    assert("ARRIBA"@[0] == 'A');
    assert("ARRIBA"@[1] == 'R');
    assert("Activar el filtro SOCD"@[0] == 'A');
    assert("Activar el filtro SOCD"@[1] == 'c');
    assert("Activo"@[0] == 'A');
    assert("Activo"@[1] == 'c');
    assert("Actualizando…"@[0] == 'A');
    assert("Ajustes SOCD sugeridos"@[0] == 'A');
    assert("Ajustes SOCD sugeridos"@[1] == 'j');
    assert("Ajustes aplicados."@[0] == 'A');
    assert("Ajustes aplicados."@[1] == 'j');
    assert("Ajustes sincronizados con el motor."@[0] == 'A');
    assert("Aplicando ajustes…"@[0] == 'A');
    assert("Aplicando ajustes…"@[1] == 'p');
    assert("Asignación de teclas"@[0] == 'A');
    assert("Aún no hay resultados."@[0] == 'A');
    assert("Aún no hay resultados."@[1] == 'ú');
    assert("Basado en solapamientos físicos"@[0] == 'B');
    assert("Basado en transiciones neutras"@[0] == 'B');
    assert("Cambios de tecla"@[0] == 'C');
    assert("Cambios del borrador sin guardar"@[0] == 'C');
    assert("Cancelar"@[0] == 'C');
    assert("Cargando y activando el perfil…"@[0] == 'C');
    assert("Cargar"@[0] == 'C');
    assert("Cargar"@[1] == 'a');
    assert("Cargar activa el perfil de inmediato. Aplicar guarda los cambios en el perfil activo."@[0] == 'C');
    assert("Cerrar"@[0] == 'C');
    assert("Cerrar"@[1] == 'e');
    assert("Conectado al motor de LastKey."@[0] == 'C');
    assert("Conectando con el motor de LastKey…"@[0] == 'C');
    assert("Códigos físicos usados por el filtro SOCD"@[0] == 'C');
    assert("Cómo funciona"@[0] == 'C');
    assert("Cómo se resuelven las pulsaciones opuestas."@[0] == 'C');
    assert("DER."@[0] == 'D');
    assert("Desactivar el filtro SOCD"@[0] == 'D');
    assert("Detecta un solapamiento de teclas opuestas."@[0] == 'D');
    assert("Detener medición"@[0] == 'D');
    assert("Deteniendo…"@[0] == 'D');
    assert("ESC Cancelar"@[0] == 'E');
    assert("Ejemplo anterior"@[0] == 'E');
    assert("Ejemplo siguiente"@[0] == 'E');
    assert("Ejemplo siguiente"@[1] == 'j');
    assert("El juego recibe A"@[0] == 'E');
    assert("El juego recibe A"@[1] == 'l');
    assert("El juego recibe A"@[16] == 'A');
    assert("El juego recibe D"@[0] == 'E');
    assert("El juego recibe D"@[1] == 'l');
    assert("El juego recibe D"@[16] == 'D');
    assert("Envía la nueva tecla al terminar la espera."@[0] == 'E');
    assert("Envía la nueva tecla de inmediato."@[0] == 'E');
    assert("Envía la nueva tecla de inmediato. 0 ms de retardo añadido"@[0] == 'E');
    assert("Espera un tiempo aleatorio dentro de {range}. Este intervalo no envía ninguna entrada"@[0] == 'E');
    assert("Esperando a LastKey.exe."@[0] == 'E');
    assert("Guardando el nombre…"@[0] == 'G');
    assert("Hay teclas duplicadas."@[0] == 'H');
    assert("Haz clic en Aplicar para guardar los cambios del borrador."@[0] == 'H');
    assert("IZQ."@[0] == 'I');
    assert("Idioma"@[0] == 'I');
    assert("Iniciar medición"@[0] == 'I');
    assert("Inmediato"@[0] == 'I');
    assert("La captura del teclado está activa"@[0] == 'L');
    assert("Latencias medidas por eje"@[0] == 'L');
    assert("Latencias medidas por eje"@[1] == 'a');
    assert("Los cambios se guardan al pulsar Aplicar."@[0] == 'L');
    assert("Línea de tiempo de teclas"@[0] == 'L');
    assert("Línea de tiempo de teclas"@[1] == 'í');
    assert("MUESTRAS"@[0] == 'M');
    assert("Medición de tiempos"@[0] == 'M');
    assert("Mezcla aleatoria"@[0] == 'M');
    assert("Mezcla aleatoria"@[1] == 'e');
    assert("Muestras válidas"@[0] == 'M');
    assert("Muestras válidas"@[1] == 'u');
    assert("MÁX."@[0] == 'M');
    assert("MÁX."@[1] == 'Á');
    assert("MÍN."@[0] == 'M');
    assert("MÍN."@[1] == 'Í');
    assert("Nombre del perfil"@[0] == 'N');
    assert("PATRÓN"@[0] == 'P');
    assert("PATRÓN"@[1] == 'A');
    assert("Pausar vista previa"@[0] == 'P');
    assert("Perfil"@[0] == 'P');
    assert("Perfil"@[1] == 'e');
    assert("Perfil cargado y activado."@[1] == 'e');
    assert("Perfil renombrado."@[0] == 'P');
    assert("Perfiles"@[0] == 'P');
    assert("Proporción casi simultánea"@[1] == 'r');
    assert("Proporción de retardos"@[0] == 'P');
    assert("Pulsa una tecla nueva..."@[0] == 'P');
    assert("Pulsa una tecla para reasignarla"@[0] == 'P');
    assert("Rangos P10–P50 de ambos ejes, sin muestras casi simultáneas."@[0] == 'R');
    assert("Ranuras de perfil"@[0] == 'R');
    assert("Ranuras de perfil"@[1] == 'a');
    assert("Reiniciar sesión"@[0] == 'R');
    assert("Renombrar"@[0] == 'R');
    assert("Restaurar asignación"@[0] == 'R');
    assert("Restaurar tiempos"@[0] == 'R');
    assert("Restaurar tiempos"@[1] == 'e');
    assert("Restaurar tiempos"@[2] == 's');
    assert("Retardo al pulsar"@[0] == 'R');
    assert("Retardo al pulsar"@[1] == 'e');
    assert("Retardo al pulsar"@[2] == 't');
    assert("Retardo al pulsar"@[11] == 'p');
    assert("Retardo al soltar"@[0] == 'R');
    assert("Retardo al soltar"@[1] == 'e');
    assert("Retardo al soltar"@[2] == 't');
    assert("Retardo al soltar"@[11] == 's');
    assert("Retardo de la nueva tecla"@[0] == 'R');
    assert("Revertir"@[0] == 'R');
    assert("Se actualiza en directo durante la medición"@[0] == 'S');
    assert("Sincronizado"@[0] == 'S');
    assert("Sincronizar"@[0] == 'S');
    assert("Solapamiento físico"@[0] == 'S');
    assert("Suelta la salida de la tecla anterior al terminar la espera."@[0] == 'S');
    assert("Tiempos de entrada"@[0] == 'T');
    assert("Transición neutra"@[0] == 'T');
    assert("Usar recomendaciones"@[0] == 'U');
    assert("Vista previa"@[0] == 'V');
    assert("¿Cargar este perfil?"@[0] == '¿');
}

} // verus!
